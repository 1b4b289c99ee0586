//! UEFI memory type codes, read from `uefi_raw`'s `MemoryType` constants.
//! Each function returns the `u32` inside one constant; its contract
//! states the code the constant holds in `uefi_raw`.

use vstd::prelude::*;
use uefi_raw::table::boot::MemoryType;

verus! {

/// Code of `uefi_raw::table::boot::MemoryType::LOADER_CODE` (1).
#[verifier::external_body]
pub(crate) fn efi_loader_code() -> (r: u32)
    ensures
        r == 1,
{
    MemoryType::LOADER_CODE.0
}

/// Code of `uefi_raw::table::boot::MemoryType::LOADER_DATA` (2).
#[verifier::external_body]
pub(crate) fn efi_loader_data() -> (r: u32)
    ensures
        r == 2,
{
    MemoryType::LOADER_DATA.0
}

/// Code of `uefi_raw::table::boot::MemoryType::BOOT_SERVICES_CODE` (3).
#[verifier::external_body]
pub(crate) fn efi_boot_services_code() -> (r: u32)
    ensures
        r == 3,
{
    MemoryType::BOOT_SERVICES_CODE.0
}

/// Code of `uefi_raw::table::boot::MemoryType::BOOT_SERVICES_DATA` (4).
#[verifier::external_body]
pub(crate) fn efi_boot_services_data() -> (r: u32)
    ensures
        r == 4,
{
    MemoryType::BOOT_SERVICES_DATA.0
}

/// Code of `uefi_raw::table::boot::MemoryType::CONVENTIONAL` (7).
#[verifier::external_body]
pub(crate) fn efi_conventional() -> (r: u32)
    ensures
        r == 7,
{
    MemoryType::CONVENTIONAL.0
}

/// Code of `uefi_raw::table::boot::MemoryType::ACPI_RECLAIM` (9).
#[verifier::external_body]
pub(crate) fn efi_acpi_reclaim() -> (r: u32)
    ensures
        r == 9,
{
    MemoryType::ACPI_RECLAIM.0
}

/// Code of `uefi_raw::table::boot::MemoryType::ACPI_NON_VOLATILE` (10).
#[verifier::external_body]
pub(crate) fn efi_acpi_non_volatile() -> (r: u32)
    ensures
        r == 10,
{
    MemoryType::ACPI_NON_VOLATILE.0
}

/// Code of `uefi_raw::table::boot::MemoryType::MMIO` (11).
#[verifier::external_body]
pub(crate) fn efi_mmio() -> (r: u32)
    ensures
        r == 11,
{
    MemoryType::MMIO.0
}

/// Code of `uefi_raw::table::boot::MemoryType::MMIO_PORT_SPACE` (12).
#[verifier::external_body]
pub(crate) fn efi_mmio_port_space() -> (r: u32)
    ensures
        r == 12,
{
    MemoryType::MMIO_PORT_SPACE.0
}

} // verus!
