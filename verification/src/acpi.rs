//! ACPI tables for interrupt routing: the RSDP checksum, the root table
//! (RSDT or XSDT) and its entries, and the MADT's interrupt source
//! override for IRQ1 (the keyboard). Tables are handed in as the bytes
//! read from their physical addresses.

use vstd::prelude::*;
use crate::bytes::{le16, le32, le64, read_u16_le, read_u32_le, read_u64_le};

verus! {

/// ACPI 1.0 RSDP.
#[derive(PartialEq, Eq, Debug, Clone, Copy)]
pub struct Rsdp {
    pub signature: [u8; 8],
    pub checksum: u8,
    pub oem_id: [u8; 6],
    pub revision: u8,
    pub rsdt_address: u32,
}

/// ACPI 2.0+ RSDP.
#[derive(PartialEq, Eq, Debug, Clone, Copy)]
pub struct RsdpExtended {
    pub base: Rsdp,
    pub length: u32,
    pub xsdt_address: u64,
    pub extended_checksum: u8,
    pub reserved: [u8; 3],
}

/// System description table header.
#[derive(PartialEq, Eq, Debug, Clone, Copy)]
pub struct SdtHeader {
    pub signature: [u8; 4],
    pub length: u32,
    pub revision: u8,
    pub checksum: u8,
    pub oem_id: [u8; 6],
    pub oem_table_id: [u8; 8],
    pub oem_revision: u32,
    pub creator_id: u32,
    pub creator_revision: u32,
}

/// MADT: header, local APIC address, flags.
#[derive(PartialEq, Eq, Debug, Clone, Copy)]
pub struct Madt {
    pub header: SdtHeader,
    pub local_apic_address: u32,
    pub flags: u32,
}

/// MADT entry header.
#[derive(PartialEq, Eq, Structural, Debug, Clone, Copy)]
pub struct MadtEntryHeader {
    pub entry_type: u8,
    pub length: u8,
}

/// Interrupt source override entry (MADT entry type 2).
#[derive(PartialEq, Eq, Structural, Debug, Clone, Copy)]
pub struct InterruptSourceOverrideEntry {
    pub header: MadtEntryHeader,
    pub bus: u8,
    pub source_irq: u8,
    pub gsi: u32,
    pub flags: u16,
}

/// Where IRQ1 is routed.
#[derive(PartialEq, Eq, Structural, Debug, Clone, Copy)]
pub struct Irq1Override {
    /// The global system interrupt IRQ1 is mapped to.
    pub gsi: u32,
    /// Polarity: active low.
    pub active_low: bool,
    /// Trigger mode: level.
    pub level_triggered: bool,
}

/// Routing without an override: GSI 1, active high, edge triggered.
pub open spec fn default_override_spec() -> Irq1Override {
    Irq1Override { gsi: 1, active_low: false, level_triggered: false }
}

impl Irq1Override {
    /// Routing without an override.
    pub fn default_override() -> (r: Irq1Override)
        ensures
            r == default_override_spec(),
    {
        Irq1Override { gsi: 1, active_low: false, level_triggered: false }
    }
}

/// Size of the ACPI 1.0 RSDP.
pub const RSDP_SIZE: usize = 20;

/// Size of the ACPI 2.0 RSDP.
pub const RSDP_EXTENDED_SIZE: usize = 36;

/// Size of a table header.
pub const SDT_HEADER_SIZE: usize = 36;

/// Size of the MADT's fixed part.
pub const MADT_HEADER_SIZE: usize = 44;

/// Sum of the first `n` bytes.
pub open spec fn byte_sum(s: Seq<u8>, n: int) -> int
    decreases n,
{
    if n <= 0 {
        0
    } else {
        byte_sum(s, n - 1) + s[n - 1]
    }
}

/// Whether the ACPI 1.0 RSDP's 20 bytes sum to 0 modulo 256.
pub fn verify_rsdp_checksum(rsdp: &[u8]) -> (r: bool)
    requires
        rsdp@.len() >= RSDP_SIZE,
    ensures
        r == (byte_sum(rsdp@, RSDP_SIZE as int) % 256 == 0),
{
    let mut sum: u8 = 0;
    let mut i: usize = 0;
    while i < RSDP_SIZE
        invariant
            rsdp@.len() >= RSDP_SIZE,
            0 <= i <= RSDP_SIZE,
            sum == byte_sum(rsdp@, i as int) % 256,
        decreases RSDP_SIZE - i,
    {
        sum = sum.wrapping_add(rsdp[i]);
        i = i + 1;
    }
    sum == 0
}

/// The root table an RSDP names: the XSDT for revision 2 and later, else
/// the RSDT; none for a bad checksum or a null address. The flag tells an
/// XSDT (64-bit entries).
pub open spec fn root_table_spec(r: Seq<u8>) -> Option<(u64, bool)> {
    if byte_sum(r, RSDP_SIZE as int) % 256 != 0 {
        None
    } else if r[15] >= 2 {
        if le64(r, 24) == 0 {
            None
        } else {
            Some((le64(r, 24) as u64, true))
        }
    } else if le32(r, 16) == 0 {
        None
    } else {
        Some((le32(r, 16) as u64, false))
    }
}

/// Finds the root table from the RSDP's bytes (36 of them for revision 2
/// and later).
pub fn root_table_address(rsdp: &[u8]) -> (r: Option<(u64, bool)>)
    requires
        rsdp@.len() >= RSDP_SIZE,
        rsdp@[15] >= 2 ==> rsdp@.len() >= RSDP_EXTENDED_SIZE,
    ensures
        r == root_table_spec(rsdp@),
{
    if !verify_rsdp_checksum(rsdp) {
        return None;
    }
    let has_xsdt = rsdp[15] >= 2;
    let address = if has_xsdt {
        read_u64_le(rsdp, 24)
    } else {
        read_u32_le(rsdp, 16) as u64
    };
    if address == 0 {
        None
    } else {
        Some((address, has_xsdt))
    }
}

/// The entry addresses of a root table: `(length - 36) / size` entries of
/// 8 bytes (XSDT) or 4 bytes (RSDT) after the header.
pub fn root_table_entries(table: &[u8], has_xsdt: bool) -> (r: Vec<u64>)
    requires
        table@.len() >= SDT_HEADER_SIZE,
        le32(table@, 4) >= SDT_HEADER_SIZE,
        SDT_HEADER_SIZE + (le32(table@, 4) - SDT_HEADER_SIZE) / (if has_xsdt { 8int } else { 4 }) * (if has_xsdt {
            8int
        } else {
            4
        }) <= table@.len(),
    ensures
        r@.len() == (le32(table@, 4) - SDT_HEADER_SIZE) / (if has_xsdt { 8int } else { 4 }),
        forall|i: int|
            0 <= i < r@.len() ==> #[trigger] r@[i] == (if has_xsdt {
                le64(table@, SDT_HEADER_SIZE + 8 * i)
            } else {
                le32(table@, SDT_HEADER_SIZE + 4 * i)
            }),
{
    let length = read_u32_le(table, 4) as usize;
    let entry_size: usize = if has_xsdt {
        8
    } else {
        4
    };
    let num_entries = (length - SDT_HEADER_SIZE) / entry_size;
    let mut v: Vec<u64> = Vec::new();
    let mut i: usize = 0;
    while i < num_entries
        invariant
            table@.len() >= SDT_HEADER_SIZE,
            entry_size == (if has_xsdt { 8usize } else { 4 }),
            SDT_HEADER_SIZE + num_entries * entry_size <= table.len(),
            0 <= i <= num_entries,
            v@.len() == i,
            forall|j: int|
                0 <= j < i ==> #[trigger] v@[j] == (if has_xsdt {
                    le64(table@, SDT_HEADER_SIZE + 8 * j)
                } else {
                    le32(table@, SDT_HEADER_SIZE + 4 * j)
                }),
        decreases num_entries - i,
    {
        assert(SDT_HEADER_SIZE + (i + 1) * entry_size <= table@.len()) by (nonlinear_arith)
            requires
                i + 1 <= num_entries,
                SDT_HEADER_SIZE + num_entries * entry_size <= table.len(),
        ;
        assert(i * entry_size <= num_entries * entry_size) by (nonlinear_arith)
            requires
                i <= num_entries,
        ;
        let off = SDT_HEADER_SIZE + i * entry_size;
        let e = if has_xsdt {
            read_u64_le(table, off)
        } else {
            read_u32_le(table, off) as u64
        };
        v.push(e);
        i = i + 1;
    }
    v
}

/// Whether a table header is the MADT's (signature `APIC`).
pub fn is_madt(header: &[u8]) -> (r: bool)
    requires
        header@.len() >= 4,
    ensures
        r == (header@[0] == 65 && header@[1] == 80 && header@[2] == 73 && header@[3] == 67),
{
    header[0] == 65 && header[1] == 80 && header[2] == 73 && header[3] == 67
}

/// The override an interrupt source override entry at `off` gives when
/// it maps ISA IRQ1: its GSI, and polarity and trigger from its flags.
pub open spec fn override_at(m: Seq<u8>, off: int) -> Option<Irq1Override> {
    if m[off] == 2 && m[off + 2] == 0 && m[off + 3] == 1 {
        Some(
            Irq1Override {
                gsi: le32(m, off + 4) as u32,
                active_low: (le16(m, off + 8) as u16) & 2 != 0,
                level_triggered: (le16(m, off + 8) as u16) & 8 != 0,
            },
        )
    } else {
        None
    }
}

/// Whether the walk over the MADT's entries from `off` ends (every entry
/// it passes has a length) and reads only bytes that were handed in (the
/// entry header, and the whole entry for an override).
pub open spec fn madt_walk_ok(m: Seq<u8>, len: int, off: int) -> bool
    decreases (if off < len { len - off } else { 0 }),
{
    if off >= len {
        true
    } else if off + 2 > m.len() || (m[off] == 2 && off + 10 > m.len()) {
        false
    } else if override_at(m, off) is Some {
        true
    } else if m[off + 1] == 0 {
        false
    } else {
        proof {
            assert(m[off + 1] > 0);
        }
        madt_walk_ok(m, len, off + m[off + 1])
    }
}

/// The IRQ1 override the walk from `off` finds, the default without one.
pub open spec fn madt_walk(m: Seq<u8>, len: int, off: int) -> Irq1Override
    decreases (if off < len { len - off } else { 0 }),
{
    if off >= len || off + 2 > m.len() || (m[off] == 2 && off + 10 > m.len()) {
        default_override_spec()
    } else if override_at(m, off) is Some {
        override_at(m, off)->0
    } else if m[off + 1] == 0 {
        default_override_spec()
    } else {
        proof {
            assert(m[off + 1] > 0);
        }
        madt_walk(m, len, off + m[off + 1])
    }
}

/// Bits 1 and 3 of a 16-bit word, as masks and as arithmetic.
proof fn lemma_flag_bits(v: u16)
    ensures
        (v & 2 != 0) == ((v as int / 2) % 2 == 1),
        (v & 8 != 0) == ((v as int / 8) % 2 == 1),
{
    assert((v & 2 != 0) == ((v / 2) % 2 == 1)) by (bit_vector);
    assert((v & 8 != 0) == ((v / 8) % 2 == 1)) by (bit_vector);
}

/// What the MADT walk finds: the default routing (GSI 1, active high,
/// edge triggered), or an interrupt source override entry (type 2) at or
/// after `off` that maps ISA IRQ1 (bus 0, source 1), read field by field:
/// the GSI is the 32-bit value at entry offset 4, `active_low` is bit 1
/// (polarity) and `level_triggered` bit 3 (trigger mode) of the 16-bit
/// flags word at entry offset 8.
pub proof fn lemma_madt_override_fields(m: Seq<u8>, len: int, off: int)
    ensures
        ({
            let r = madt_walk(m, len, off);
            ||| r == (Irq1Override { gsi: 1, active_low: false, level_triggered: false })
            ||| exists|o: int|
                #![trigger m[o]]
                off <= o < len && o + 10 <= m.len() && m[o] == 2 && m[o + 2] == 0 && m[o + 3] == 1 && r.gsi
                    == le32(m, o + 4) && r.active_low == ((le16(m, o + 8) / 2) % 2 == 1) && r.level_triggered
                    == ((le16(m, o + 8) / 8) % 2 == 1)
        }),
    decreases (if off < len { len - off } else { 0 }),
{
    if off >= len || off + 2 > m.len() || (m[off] == 2 && off + 10 > m.len()) {
    } else if override_at(m, off) is Some {
        let o = off;
        let w = le16(m, o + 8);
        assert(0 <= w < 0x1_0000);
        lemma_flag_bits(w as u16);
        assert((w as u16) as int == w);
        assert(0 <= le32(m, o + 4) < 0x1_0000_0000);
        assert(m[o] == 2);
    } else if m[off + 1] == 0 {
    } else {
        lemma_madt_override_fields(m, len, off + m[off + 1]);
        let r = madt_walk(m, len, off);
        assert(r == madt_walk(m, len, off + m[off + 1]));
    }
}

/// Finds the interrupt source override for IRQ1 among the MADT's entries
/// (from offset 44 to the table's length), the default routing without
/// one.
pub fn parse_madt_for_irq1(madt: &[u8]) -> (r: Irq1Override)
    requires
        madt@.len() >= MADT_HEADER_SIZE,
        madt@.len() < 0x1_0000_0000,
        madt_walk_ok(madt@, le32(madt@, 4), MADT_HEADER_SIZE as int),
    ensures
        r == madt_walk(madt@, le32(madt@, 4), MADT_HEADER_SIZE as int),
{
    let length = read_u32_le(madt, 4) as u64;
    let mut offset: u64 = MADT_HEADER_SIZE as u64;
    while offset < length
        invariant
            madt@.len() < 0x1_0000_0000,
            length == le32(madt@, 4),
            madt_walk_ok(madt@, length as int, offset as int),
            madt_walk(madt@, length as int, offset as int) == madt_walk(madt@, le32(madt@, 4), MADT_HEADER_SIZE as int),
        decreases (if offset < length { length - offset } else { 0 }),
    {
        let off = offset as usize;
        let entry_type = madt[off];
        let entry_length = madt[off + 1];
        if entry_type == 2 {
            let bus = madt[off + 2];
            let source_irq = madt[off + 3];
            if bus == 0 && source_irq == 1 {
                let flags = read_u16_le(madt, off + 8);
                let gsi = read_u32_le(madt, off + 4);
                return Irq1Override {
                    gsi,
                    active_low: (flags & 0x0002) != 0,
                    level_triggered: (flags & 0x0008) != 0,
                };
            }
        }
        offset = offset + entry_length as u64;
    }
    Irq1Override::default_override()
}

/// Whether the walk that `parse_madt_for_irq1` makes over a table ends
/// within the bytes handed in: every entry it passes has a non-zero
/// length and lies in the slice.
pub fn madt_walk_ends(madt: &[u8]) -> (r: bool)
    requires
        madt@.len() >= MADT_HEADER_SIZE,
        madt@.len() < 0x1_0000_0000,
    ensures
        r == madt_walk_ok(madt@, le32(madt@, 4), MADT_HEADER_SIZE as int),
{
    let length = read_u32_le(madt, 4) as u64;
    let mut offset: u64 = MADT_HEADER_SIZE as u64;
    while offset < length
        invariant
            madt@.len() < 0x1_0000_0000,
            length == le32(madt@, 4),
            madt_walk_ok(madt@, length as int, offset as int) == madt_walk_ok(
                madt@,
                le32(madt@, 4),
                MADT_HEADER_SIZE as int,
            ),
        decreases (if offset < length { length - offset } else { 0 }),
    {
        let off = offset as usize;
        if off > madt.len() || madt.len() - off < 2 {
            return false;
        }
        let entry_type = madt[off];
        if entry_type == 2 && madt.len() - off < 10 {
            return false;
        }
        if entry_type == 2 && madt[off + 2] == 0 && madt[off + 3] == 1 {
            return true;
        }
        let entry_length = madt[off + 1];
        if entry_length == 0 {
            return false;
        }
        offset = offset + entry_length as u64;
    }
    true
}
/// 'IRQ1 Override: '
pub const OVERRIDE_PREFIX: [u8; 15] = [73, 82, 81, 49, 32, 79, 118, 101, 114, 114, 105, 100, 101, 58, 32];

/// 'None (default GSI=1)\n'
pub const OVERRIDE_NONE: [u8; 21] = [78, 111, 110, 101, 32, 40, 100, 101, 102, 97, 117, 108, 116, 32, 71, 83, 73, 61, 49, 41, 10];

/// 'GSI '
pub const OVERRIDE_GSI: [u8; 4] = [71, 83, 73, 32];

/// 'ActiveLow '
pub const ACTIVE_LOW: [u8; 10] = [65, 99, 116, 105, 118, 101, 76, 111, 119, 32];

/// 'ActiveHigh '
pub const ACTIVE_HIGH: [u8; 11] = [65, 99, 116, 105, 118, 101, 72, 105, 103, 104, 32];

/// 'Level\n'
pub const LEVEL: [u8; 6] = [76, 101, 118, 101, 108, 10];

/// 'Edge\n'
pub const EDGE: [u8; 5] = [69, 100, 103, 101, 10];

/// The first entry of the root table that is not null and whose table
/// carries the MADT signature; `signatures[i]` is the signature read at
/// entry `i`.
pub fn find_madt(entries: &Vec<u64>, signatures: &Vec<[u8; 4]>) -> (r: Option<u64>)
    requires
        signatures@.len() == entries@.len(),
    ensures
        match r {
            Some(a) => exists|i: int|
                0 <= i < entries@.len() && entries@[i] == a && a != 0 && signatures@[i]@ == seq![65u8, 80u8, 73u8, 67u8]
                    && forall|j: int|
                    0 <= j < i ==> #[trigger] entries@[j] == 0 || signatures@[j]@ != seq![65u8, 80u8, 73u8, 67u8],
            None => forall|j: int|
                0 <= j < entries@.len() ==> #[trigger] entries@[j] == 0 || signatures@[j]@ != seq![65u8, 80u8, 73u8, 67u8],
        },
{
    let mut i: usize = 0;
    while i < entries.len()
        invariant
            signatures@.len() == entries@.len(),
            0 <= i <= entries@.len(),
            forall|j: int|
                0 <= j < i ==> #[trigger] entries@[j] == 0 || signatures@[j]@ != seq![65u8, 80u8, 73u8, 67u8],
        decreases entries@.len() - i,
    {
        let e = entries[i];
        if e != 0 {
            let sig = signatures[i];
            if is_madt(&sig) {
                assert(sig@ =~= seq![65u8, 80u8, 73u8, 67u8]);
                return Some(e);
            }
            assert(sig@ != seq![65u8, 80u8, 73u8, 67u8]) by {
                if sig@ == seq![65u8, 80u8, 73u8, 67u8] {
                    assert(sig@[0] == 65 && sig@[1] == 80 && sig@[2] == 73 && sig@[3] == 67);
                }
            }
        }
        i = i + 1;
    }
    None
}

/// The status line for an IRQ1 routing: none for the default, else the
/// GSI (one digit, `>` from 10 on), polarity and trigger mode.
pub fn override_description(o: Irq1Override) -> (r: Vec<u8>)
    ensures
        r@ == OVERRIDE_PREFIX@ + (if o == default_override_spec() {
            OVERRIDE_NONE@
        } else {
            OVERRIDE_GSI@ + (if o.gsi < 10 { seq![(48 + o.gsi) as u8] } else { seq![62u8] }) + seq![32u8] + (if o.active_low {
                ACTIVE_LOW@
            } else {
                ACTIVE_HIGH@
            }) + (if o.level_triggered { LEVEL@ } else { EDGE@ })
        }),
{
    let mut out: Vec<u8> = Vec::new();
    crate::shell::push_bytes(&mut out, &OVERRIDE_PREFIX);
    if o == Irq1Override::default_override() {
        crate::shell::push_bytes(&mut out, &OVERRIDE_NONE);
        return out;
    }
    let ghost p0 = out@;
    crate::shell::push_bytes(&mut out, &OVERRIDE_GSI);
    if o.gsi < 10 {
        out.push(48 + o.gsi as u8);
    } else {
        out.push(62);
    }
    out.push(32);
    if o.active_low {
        crate::shell::push_bytes(&mut out, &ACTIVE_LOW);
    } else {
        crate::shell::push_bytes(&mut out, &ACTIVE_HIGH);
    }
    if o.level_triggered {
        crate::shell::push_bytes(&mut out, &LEVEL);
    } else {
        crate::shell::push_bytes(&mut out, &EDGE);
    }
    assert(out@ =~= OVERRIDE_PREFIX@ + (OVERRIDE_GSI@ + (if o.gsi < 10 { seq![(48 + o.gsi) as u8] } else { seq![62u8] }) + seq![32u8] + (if o.active_low {
                ACTIVE_LOW@
            } else {
                ACTIVE_HIGH@
            }) + (if o.level_triggered { LEVEL@ } else { EDGE@ })));
    out
}

/// The status pixel for an IRQ1 routing (red, green, blue): gray for the
/// default, orange for an override.
pub fn override_pixel(o: Irq1Override) -> (r: (u8, u8, u8))
    ensures
        r == (if o == default_override_spec() { (0x62u8, 0x62u8, 0x62u8) } else { (0xFFu8, 0xA6u8, 0x00u8) }),
{
    if o == Irq1Override::default_override() {
        (0x62, 0x62, 0x62)
    } else {
        (0xFF, 0xA6, 0x00)
    }
}

/// An entry of the UEFI configuration table: the vendor GUID in its
/// 16-byte memory layout and the address of the vendor table.
#[derive(Debug, Clone, Copy)]
pub struct ConfigTableEntry {
    pub guid: [u8; 16],
    pub address: u64,
}

/// The ACPI 2.0 RSDP GUID, 8868e871-e4f1-11d3-bc22-0080c73c8881, in its
/// memory layout (the first three fields little-endian).
pub open spec fn acpi2_guid_spec() -> Seq<u8> {
    seq![
        0x71u8, 0xe8, 0x68, 0x88, 0xf1, 0xe4, 0xd3, 0x11,
        0xbc, 0x22, 0x00, 0x80, 0xc7, 0x3c, 0x88, 0x81,
    ]
}

/// `uefi::table::cfg::ConfigTableEntry::ACPI2_GUID` as bytes
/// (`Guid::to_bytes`): the crate defines the constant as
/// `guid!("8868e871-e4f1-11d3-bc22-0080c73c8881")`, which lays out the
/// first three fields little-endian and the last two as written.
#[verifier::external_body]
fn acpi2_guid() -> (r: [u8; 16])
    ensures
        r@ == acpi2_guid_spec(),
{
    uefi::table::cfg::ConfigTableEntry::ACPI2_GUID.to_bytes()
}

/// Whether two GUIDs are the same bytes.
pub fn guid_eq(a: &[u8; 16], b: &[u8; 16]) -> (r: bool)
    ensures
        r == (a@ == b@),
{
    let mut i: usize = 0;
    while i < 16
        invariant
            0 <= i <= 16,
            forall|k: int| 0 <= k < i ==> a@[k] == b@[k],
        decreases 16 - i,
    {
        if a[i] != b[i] {
            return false;
        }
        i = i + 1;
    }
    assert(a@ =~= b@);
    true
}

/// An entry that points at the ACPI 2.0 RSDP: the ACPI 2.0 GUID and a
/// non-null table.
pub open spec fn is_rsdp_entry(e: ConfigTableEntry) -> bool {
    e.guid@ == acpi2_guid_spec() && e.address != 0
}

/// The RSDP address from the configuration table: the table of the first
/// entry with the ACPI 2.0 GUID and a non-null address.
pub fn find_rsdp(entries: &Vec<ConfigTableEntry>) -> (r: Option<u64>)
    ensures
        r is None <==> forall|i: int| 0 <= i < entries@.len() ==> !is_rsdp_entry(#[trigger] entries@[i]),
        r matches Some(a) ==> exists|i: int|
            0 <= i < entries@.len() && is_rsdp_entry(#[trigger] entries@[i]) && entries@[i].address == a
                && forall|j: int| 0 <= j < i ==> !is_rsdp_entry(#[trigger] entries@[j]),
{
    let acpi2 = acpi2_guid();
    let mut i: usize = 0;
    while i < entries.len()
        invariant
            0 <= i <= entries@.len(),
            acpi2@ == acpi2_guid_spec(),
            forall|j: int| 0 <= j < i ==> !is_rsdp_entry(#[trigger] entries@[j]),
        decreases entries.len() - i,
    {
        let e = &entries[i];
        if guid_eq(&e.guid, &acpi2) && e.address != 0 {
            assert(is_rsdp_entry(entries@[i as int]));
            return Some(e.address);
        }
        i = i + 1;
    }
    None
}

} // verus!
