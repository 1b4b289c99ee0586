use rustux::loader::{
    fallback_entry_point, pe_report, range_of_descriptor, ranges_of_descriptors, validate_pe_coff, MemoryRange,
    RustuxMemoryType,
};

const PE: usize = 0x40;
const OPT: usize = PE + 24;

fn put16(d: &mut [u8], off: usize, v: u16) {
    d[off..off + 2].copy_from_slice(&v.to_le_bytes());
}

fn put32(d: &mut [u8], off: usize, v: u32) {
    d[off..off + 4].copy_from_slice(&v.to_le_bytes());
}

/// A minimal PE32+ x86-64 EFI application image.
fn efi_image() -> Vec<u8> {
    let mut d = vec![0u8; OPT + 112];
    put16(&mut d, 0, 0x5A4D);
    put32(&mut d, 0x3C, PE as u32);
    put32(&mut d, PE, 0x0000_4550);
    put16(&mut d, PE + 4, 0x8664);
    put16(&mut d, PE + 22, 0x2022);
    put16(&mut d, OPT, 0x020b);
    put32(&mut d, OPT + 16, 0x1234);
    put16(&mut d, OPT + 68, 0x0a);
    put32(&mut d, 2 * PE + 0x28, 0x5678);
    d
}

#[test]
fn pe_image_accepted() {
    assert_eq!(validate_pe_coff(&efi_image()), Ok(()));
    let mut driver = efi_image();
    put16(&mut driver, OPT + 68, 0x0c);
    assert_eq!(validate_pe_coff(&driver), Ok(()));
}

#[test]
fn pe_errors_in_check_order() {
    assert_eq!(validate_pe_coff(&[0u8; 63]), Err("File too small for DOS header"));
    let mut d = efi_image();
    put32(&mut d, 0x3C, 0);
    assert_eq!(validate_pe_coff(&d), Err("Invalid PE offset"));
    let mut d = efi_image();
    put32(&mut d, 0x3C, (OPT + 110) as u32);
    assert_eq!(validate_pe_coff(&d), Err("Invalid PE offset"));
    let mut d = efi_image();
    put32(&mut d, PE, 0x0000_4551);
    assert_eq!(validate_pe_coff(&d), Err("Invalid PE signature"));
    let mut d = efi_image();
    d.truncate(PE + 4 + 19);
    assert_eq!(validate_pe_coff(&d), Err("File too small for COFF header"));
    let mut d = efi_image();
    d.truncate(OPT + 111);
    assert_eq!(validate_pe_coff(&d), Err("File too small for optional header"));
    let mut d = efi_image();
    put16(&mut d, PE + 4, 0x014c);
    assert_eq!(validate_pe_coff(&d), Err("Wrong machine type (not x86-64)"));
    let mut d = efi_image();
    put16(&mut d, OPT, 0x010b);
    assert_eq!(validate_pe_coff(&d), Err("Wrong PE magic (not PE32+)"));
    let mut d = efi_image();
    put16(&mut d, OPT + 68, 3);
    assert_eq!(validate_pe_coff(&d), Err("Wrong subsystem (not EFI)"));
}

#[test]
fn pe_report_fields() {
    let r = pe_report(&efi_image());
    assert_eq!(r.dos_magic, 0x5A4D);
    assert_eq!(r.pe_offset, PE as u32);
    assert_eq!(r.coff, Some((0x8664, 0x2022)));
    assert_eq!(r.optional, Some((0x020b, 0x0a, 0x1234)));
    let mut short = efi_image();
    short.truncate(OPT + 50);
    let r = pe_report(&short);
    assert_eq!(r.coff, Some((0x8664, 0x2022)));
    assert_eq!(r.optional, None);
    let mut unsigned = efi_image();
    put32(&mut unsigned, PE, 0);
    let r = pe_report(&unsigned);
    assert_eq!(r.coff, None);
    assert_eq!(r.optional, None);
}

#[test]
fn fallback_entry_reads_twice_the_pe_offset() {
    assert_eq!(fallback_entry_point(&efi_image(), 0x1000_0000), 0x1000_5678);
}

#[test]
fn memory_kinds_of_efi_codes() {
    let expected = [
        (0, RustuxMemoryType::Reserved),
        (1, RustuxMemoryType::Available),
        (2, RustuxMemoryType::Available),
        (3, RustuxMemoryType::Available),
        (4, RustuxMemoryType::Available),
        (5, RustuxMemoryType::Reserved),
        (6, RustuxMemoryType::Reserved),
        (7, RustuxMemoryType::Available),
        (8, RustuxMemoryType::Reserved),
        (9, RustuxMemoryType::Reclaimable),
        (10, RustuxMemoryType::Reclaimable),
        (11, RustuxMemoryType::Peripheral),
        (12, RustuxMemoryType::Peripheral),
        (13, RustuxMemoryType::Reserved),
    ];
    for (code, kind) in expected {
        assert_eq!(RustuxMemoryType::from_efi(code), kind, "code {}", code);
    }
}

#[test]
fn descriptor_ranges_skip_empty_descriptors() {
    assert_eq!(range_of_descriptor(0x1000, 0, 7), None);
    assert_eq!(
        range_of_descriptor(0x1000, 3, 7),
        Some(MemoryRange { base: 0x1000, length: 0x3000, mem_type: RustuxMemoryType::Available })
    );
    let descs = vec![(0x0, 1, 7), (0x1000, 0, 2), (0x8000, 2, 11)];
    assert_eq!(
        ranges_of_descriptors(&descs),
        vec![
            MemoryRange { base: 0x0, length: 0x1000, mem_type: RustuxMemoryType::Available },
            MemoryRange { base: 0x8000, length: 0x2000, mem_type: RustuxMemoryType::Peripheral },
        ]
    );
}
