//! Boot loader logic: the memory map handed to the kernel (memory kinds,
//! sorted and coalesced ranges) and the PE/COFF checks on the kernel
//! image.

use vstd::prelude::*;
use crate::bytes::{le16, le32, read_u16_le, read_u32_le};

verus! {

/// Kind of a memory range handed to the kernel.
#[derive(PartialEq, Eq, Structural, Debug, Clone, Copy)]
pub enum RustuxMemoryType {
    Available,
    Reserved,
    Reclaimable,
    Peripheral,
}

/// The kernel's kind of a UEFI memory type code: loader, boot services
/// and conventional memory are available, MMIO is peripheral, ACPI tables
/// are reclaimable, everything else reserved.
pub open spec fn rustux_type_of(code: u32) -> RustuxMemoryType {
    if code == 1 || code == 2 || code == 3 || code == 4 || code == 7 {
        RustuxMemoryType::Available
    } else if code == 11 || code == 12 {
        RustuxMemoryType::Peripheral
    } else if code == 9 || code == 10 {
        RustuxMemoryType::Reclaimable
    } else {
        RustuxMemoryType::Reserved
    }
}

impl RustuxMemoryType {
    /// The kernel's kind of a UEFI memory type code.
    pub fn from_efi(code: u32) -> (r: RustuxMemoryType)
        ensures
            r == rustux_type_of(code),
    {
        if code == crate::efi::efi_loader_code() || code == crate::efi::efi_loader_data() || code
            == crate::efi::efi_boot_services_code() || code == crate::efi::efi_boot_services_data() || code
            == crate::efi::efi_conventional() {
            RustuxMemoryType::Available
        } else if code == crate::efi::efi_mmio() || code == crate::efi::efi_mmio_port_space() {
            RustuxMemoryType::Peripheral
        } else if code == crate::efi::efi_acpi_reclaim() || code == crate::efi::efi_acpi_non_volatile() {
            RustuxMemoryType::Reclaimable
        } else {
            RustuxMemoryType::Reserved
        }
    }
}

/// A range of physical memory handed to the kernel.
#[derive(PartialEq, Eq, Structural, Debug, Clone, Copy)]
pub struct MemoryRange {
    pub base: u64,
    pub length: u64,
    pub mem_type: RustuxMemoryType,
}

/// The range a UEFI descriptor gives, none for an empty one.
pub fn range_of_descriptor(phys_start: u64, page_count: u64, type_code: u32) -> (r: Option<MemoryRange>)
    requires
        page_count * 4096 <= u64::MAX,
    ensures
        r == (if page_count > 0 {
            Some(MemoryRange { base: phys_start, length: (page_count * 4096) as u64, mem_type: rustux_type_of(type_code) })
        } else {
            None
        }),
{
    if page_count > 0 {
        Some(MemoryRange { base: phys_start, length: page_count * 4096, mem_type: RustuxMemoryType::from_efi(type_code) })
    } else {
        None
    }
}

/// The ranges of a descriptor list (start, page count, type code), in
/// order, empty descriptors left out.
pub fn ranges_of_descriptors(descs: &Vec<(u64, u64, u32)>) -> (r: Vec<MemoryRange>)
    requires
        forall|i: int| 0 <= i < descs@.len() ==> (#[trigger] descs@[i]).1 * 4096 <= u64::MAX,
    ensures
        r@ == descriptor_ranges(descs@, descs@.len() as int),
{
    let mut v: Vec<MemoryRange> = Vec::new();
    let mut i: usize = 0;
    while i < descs.len()
        invariant
            0 <= i <= descs@.len(),
            forall|j: int| 0 <= j < descs@.len() ==> (#[trigger] descs@[j]).1 * 4096 <= u64::MAX,
            v@ == descriptor_ranges(descs@, i as int),
        decreases descs@.len() - i,
    {
        let (start, pages, code) = descs[i];
        match range_of_descriptor(start, pages, code) {
            Some(r) => v.push(r),
            None => {},
        }
        i = i + 1;
    }
    v
}

/// The ranges of the first `n` descriptors, empty ones left out.
pub open spec fn descriptor_ranges(descs: Seq<(u64, u64, u32)>, n: int) -> Seq<MemoryRange>
    decreases n,
{
    if n <= 0 {
        Seq::empty()
    } else {
        let d = descs[n - 1];
        let prev = descriptor_ranges(descs, n - 1);
        if d.1 > 0 {
            prev.push(MemoryRange { base: d.0, length: (d.1 * 4096) as u64, mem_type: rustux_type_of(d.2) })
        } else {
            prev
        }
    }
}

/// Whether ranges are in non-decreasing base order.
pub open spec fn sorted_by_base(s: Seq<MemoryRange>) -> bool {
    forall|i: int, j: int| 0 <= i < j < s.len() ==> (#[trigger] s[i]).base <= (#[trigger] s[j]).base
}

/// The ranges with a given base, in their order.
pub open spec fn with_base(s: Seq<MemoryRange>, b: u64) -> Seq<MemoryRange> {
    s.filter(|r: MemoryRange| r.base == b)
}

/// Sorts ranges by base, keeping the order of ranges with equal bases
/// (`slice::sort_by_key`, a stable sort).
#[verifier::external_body]
fn sort_ranges_by_base(ranges: &mut Vec<MemoryRange>)
    ensures
        sorted_by_base(final(ranges)@),
        final(ranges)@.len() == old(ranges)@.len(),
        forall|b: u64| with_base(final(ranges)@, b) == with_base(old(ranges)@, b),
{
    ranges.sort_by_key(|r| r.base);
}

/// Whether range `b` continues range `a`: same kind, starting where `a`
/// ends.
pub open spec fn continues(a: MemoryRange, b: MemoryRange) -> bool {
    a.mem_type == b.mem_type && a.base + a.length == b.base
}

/// Ranges merged left to right: each range that continues the last merged
/// one extends it, any other starts a new one.
pub open spec fn merged(s: Seq<MemoryRange>) -> Seq<MemoryRange>
    decreases s.len(),
{
    if s.len() <= 1 {
        s
    } else {
        let m = merged(s.drop_last());
        let last = m.last();
        let cur = s.last();
        if continues(last, cur) {
            m.update(m.len() - 1, MemoryRange { length: (last.length + cur.length) as u64, ..last })
        } else {
            m.push(cur)
        }
    }
}

/// The last merged range ends where the last range ends.
proof fn lemma_merged_end(t: Seq<MemoryRange>)
    requires
        t.len() >= 1,
        forall|i: int| 0 <= i < t.len() ==> (#[trigger] t[i]).base + t[i].length <= u64::MAX,
    ensures
        merged(t).len() >= 1,
        merged(t).last().base + merged(t).last().length == t.last().base + t.last().length,
    decreases t.len(),
{
    if t.len() > 1 {
        let p = t.drop_last();
        assert forall|i: int| 0 <= i < p.len() implies (#[trigger] p[i]).base + p[i].length <= u64::MAX by {
            assert(p[i] == t[i]);
        }
        lemma_merged_end(p);
        assert(t[t.len() - 2] == p.last());
    }
}

proof fn lemma_merged_nonempty(s: Seq<MemoryRange>)
    requires
        s.len() >= 1,
    ensures
        merged(s).len() >= 1,
    decreases s.len(),
{
    if s.len() > 1 {
        lemma_merged_nonempty(s.drop_last());
    }
}

/// Coalescing leaves nothing to merge: no range of the result continues
/// the range before it (same kind, starting where it ends).
pub proof fn lemma_merged_separated(s: Seq<MemoryRange>)
    ensures
        forall|k: int| 0 <= k < merged(s).len() - 1 ==> !continues(#[trigger] merged(s)[k], merged(s)[k + 1]),
    decreases s.len(),
{
    if s.len() > 1 {
        let p = s.drop_last();
        lemma_merged_separated(p);
        lemma_merged_nonempty(p);
        let m = merged(p);
        let last = m.last();
        let cur = s.last();
        let r = merged(s);
        if continues(last, cur) {
            let ext = MemoryRange { length: (last.length + cur.length) as u64, ..last };
            assert(r == m.update(m.len() - 1, ext));
            assert forall|k: int| 0 <= k < r.len() - 1 implies !continues(#[trigger] r[k], r[k + 1]) by {
                assert(r[k] == m[k]);
                if k + 1 < m.len() - 1 {
                    assert(r[k + 1] == m[k + 1]);
                } else {
                    assert(r[k + 1] == ext);
                    assert(!continues(m[k], m[k + 1]));
                }
            }
        } else {
            assert(r == m.push(cur));
            assert forall|k: int| 0 <= k < r.len() - 1 implies !continues(#[trigger] r[k], r[k + 1]) by {
                assert(r[k] == m[k]);
                if k + 1 < m.len() {
                    assert(r[k + 1] == m[k + 1]);
                }
            }
        }
    }
}

/// Every range of a reordering that keeps the ranges of each base is one
/// of the original ranges.
proof fn lemma_reordered_member(s: Seq<MemoryRange>, o: Seq<MemoryRange>, i: int)
    requires
        0 <= i < s.len(),
        forall|b: u64| with_base(s, b) == with_base(o, b),
    ensures
        o.contains(s[i]),
{
    let b = s[i].base;
    let p = |r: MemoryRange| r.base == b;
    s.lemma_filter_contains(p, i);
    assert(with_base(s, b) == s.filter(p));
    assert(with_base(o, b) == o.filter(p));
    o.lemma_filter_contains_rev(p, s[i]);
}

/// Merging ranges sorted by base keeps them sorted by base, and no merged
/// range starts after the last range.
proof fn lemma_merged_sorted(s: Seq<MemoryRange>)
    requires
        s.len() >= 1,
        sorted_by_base(s),
    ensures
        sorted_by_base(merged(s)),
        forall|k: int| 0 <= k < merged(s).len() ==> (#[trigger] merged(s)[k]).base <= s.last().base,
    decreases s.len(),
{
    if s.len() > 1 {
        let p = s.drop_last();
        assert(sorted_by_base(p)) by {
            assert forall|i: int, j: int| 0 <= i < j < p.len() implies (#[trigger] p[i]).base <= (#[trigger] p[j]).base by {
                assert(p[i] == s[i] && p[j] == s[j]);
            }
        }
        lemma_merged_sorted(p);
        lemma_merged_nonempty(p);
        let m = merged(p);
        let cur = s.last();
        assert(p.last() == s[s.len() - 2]);
        assert(p.last().base <= cur.base);
        let r = merged(s);
        if continues(m.last(), cur) {
            let ext = MemoryRange { length: (m.last().length + cur.length) as u64, ..m.last() };
            assert(r == m.update(m.len() - 1, ext));
            assert forall|i: int, j: int| 0 <= i < j < r.len() implies (#[trigger] r[i]).base <= (#[trigger] r[j]).base by {
                assert(r[i].base == m[i].base);
                assert(r[j].base == m[j].base);
            }
            assert forall|k: int| 0 <= k < r.len() implies (#[trigger] r[k]).base <= s.last().base by {
                assert(r[k].base == m[k].base);
            }
        } else {
            assert(r == m.push(cur));
            assert forall|i: int, j: int| 0 <= i < j < r.len() implies (#[trigger] r[i]).base <= (#[trigger] r[j]).base by {
                if j < m.len() {
                    assert(r[i] == m[i] && r[j] == m[j]);
                } else {
                    assert(r[i] == m[i]);
                }
            }
            assert forall|k: int| 0 <= k < r.len() implies (#[trigger] r[k]).base <= s.last().base by {
                if k < m.len() {
                    assert(r[k] == m[k]);
                }
            }
        }
    }
}

/// Whether address `a` lies in a range of kind `t`.
pub open spec fn covers(s: Seq<MemoryRange>, a: int, t: RustuxMemoryType) -> bool {
    exists|i: int| 0 <= i < s.len() && (#[trigger] s[i]).mem_type == t && s[i].base <= a < s[i].base + s[i].length
}

/// Merging contiguous ranges of one kind covers the same addresses with
/// the same kinds.
proof fn lemma_merged_covers(s: Seq<MemoryRange>, a: int, t: RustuxMemoryType)
    requires
        forall|i: int| 0 <= i < s.len() ==> (#[trigger] s[i]).base + s[i].length <= u64::MAX,
    ensures
        covers(merged(s), a, t) == covers(s, a, t),
    decreases s.len(),
{
    if s.len() > 1 {
        let p = s.drop_last();
        assert forall|i: int| 0 <= i < p.len() implies (#[trigger] p[i]).base + p[i].length <= u64::MAX by {
            assert(p[i] == s[i]);
        }
        lemma_merged_covers(p, a, t);
        lemma_merged_end(p);
        let m = merged(p);
        let n = m.len();
        let last = m.last();
        let cur = s.last();
        let r = merged(s);
        assert(s == p.push(cur));
        // what the last range adds to the coverage of the ones before it
        assert(covers(s, a, t) == (covers(p, a, t) || (cur.mem_type == t && cur.base <= a < cur.base + cur.length))) by {
            if covers(s, a, t) {
                let i = choose|i: int|
                    0 <= i < s.len() && (#[trigger] s[i]).mem_type == t && s[i].base <= a < s[i].base + s[i].length;
                if i < p.len() {
                    assert(p[i] == s[i]);
                }
            }
            if covers(p, a, t) {
                let i = choose|i: int|
                    0 <= i < p.len() && (#[trigger] p[i]).mem_type == t && p[i].base <= a < p[i].base + p[i].length;
                assert(s[i] == p[i]);
            }
            if cur.mem_type == t && cur.base <= a < cur.base + cur.length {
                assert(s[s.len() - 1] == cur);
            }
        }
        if continues(last, cur) {
            let ext = MemoryRange { length: (last.length + cur.length) as u64, ..last };
            assert(r == m.update(n - 1, ext));
            assert(covers(r, a, t) == (covers(m, a, t) || (cur.mem_type == t && cur.base <= a < cur.base
                + cur.length))) by {
                if covers(r, a, t) {
                    let i = choose|i: int|
                        0 <= i < r.len() && (#[trigger] r[i]).mem_type == t && r[i].base <= a < r[i].base
                            + r[i].length;
                    if i < n - 1 {
                        assert(m[i] == r[i]);
                    } else if a < last.base + last.length {
                        assert(m[n - 1] == last);
                    }
                }
                if covers(m, a, t) {
                    let i = choose|i: int|
                        0 <= i < m.len() && (#[trigger] m[i]).mem_type == t && m[i].base <= a < m[i].base
                            + m[i].length;
                    if i < n - 1 {
                        assert(r[i] == m[i]);
                    } else {
                        assert(r[n - 1] == ext);
                    }
                }
                if cur.mem_type == t && cur.base <= a < cur.base + cur.length {
                    assert(r[n - 1] == ext);
                }
            }
        } else {
            assert(r == m.push(cur));
            assert(covers(r, a, t) == (covers(m, a, t) || (cur.mem_type == t && cur.base <= a < cur.base
                + cur.length))) by {
                if covers(r, a, t) {
                    let i = choose|i: int|
                        0 <= i < r.len() && (#[trigger] r[i]).mem_type == t && r[i].base <= a < r[i].base
                            + r[i].length;
                    if i < n {
                        assert(m[i] == r[i]);
                    }
                }
                if covers(m, a, t) {
                    let i = choose|i: int|
                        0 <= i < m.len() && (#[trigger] m[i]).mem_type == t && m[i].base <= a < m[i].base
                            + m[i].length;
                    assert(r[i] == m[i]);
                }
                if cur.mem_type == t && cur.base <= a < cur.base + cur.length {
                    assert(r[n as int] == cur);
                }
            }
        }
    }
}

/// A reordering that keeps the ranges of each base covers the same
/// addresses with the same kinds.
proof fn lemma_reordered_covers(s: Seq<MemoryRange>, o: Seq<MemoryRange>, a: int, t: RustuxMemoryType)
    requires
        forall|b: u64| with_base(s, b) == with_base(o, b),
    ensures
        covers(s, a, t) == covers(o, a, t),
{
    if covers(s, a, t) {
        let i = choose|i: int|
            0 <= i < s.len() && (#[trigger] s[i]).mem_type == t && s[i].base <= a < s[i].base + s[i].length;
        lemma_reordered_member(s, o, i);
        let j = choose|j: int| 0 <= j < o.len() && o[j] == s[i];
        assert(o[j].mem_type == t);
    }
    if covers(o, a, t) {
        let i = choose|i: int|
            0 <= i < o.len() && (#[trigger] o[i]).mem_type == t && o[i].base <= a < o[i].base + o[i].length;
        lemma_reordered_member(o, s, i);
        let j = choose|j: int| 0 <= j < s.len() && s[j] == o[i];
        assert(s[j].mem_type == t);
    }
}

/// Sorts ranges by base and merges contiguous ranges of the same kind.
pub fn coalesce_ranges(ranges: &mut Vec<MemoryRange>)
    requires
        forall|i: int| 0 <= i < old(ranges)@.len() ==> (#[trigger] old(ranges)@[i]).base + old(ranges)@[i].length
            <= u64::MAX,
    ensures
        old(ranges)@.len() <= 1 ==> final(ranges)@ == old(ranges)@,
        old(ranges)@.len() > 1 ==> exists|s: Seq<MemoryRange>|
            {
                &&& sorted_by_base(s)
                &&& s.len() == old(ranges)@.len()
                &&& forall|b: u64| with_base(s, b) == with_base(old(ranges)@, b)
                &&& final(ranges)@ == merged(s)
            },
        sorted_by_base(final(ranges)@),
        forall|a: int, t: RustuxMemoryType| covers(final(ranges)@, a, t) == covers(old(ranges)@, a, t),
{
    if ranges.len() <= 1 {
        return;
    }
    let ghost o = ranges@;
    sort_ranges_by_base(ranges);
    let ghost s = ranges@;
    let len = ranges.len();
    proof {
        assert forall|i: int| 0 <= i < s.len() implies (#[trigger] s[i]).base + s[i].length <= u64::MAX by {
            lemma_reordered_member(s, o, i);
        }
        assert(s.subrange(0, 1).len() == 1);
        assert(merged(s.subrange(0, 1)) == s.subrange(0, 1));
        assert(ranges@.subrange(0, 1) =~= s.subrange(0, 1));
    }
    let mut write_idx: usize = 1;
    let mut read_idx: usize = 1;
    while read_idx < len
        invariant
            len == s.len(),
            len > 1,
            ranges@.len() == len,
            1 <= write_idx <= read_idx <= len,
            forall|i: int| 0 <= i < s.len() ==> (#[trigger] s[i]).base + s[i].length <= u64::MAX,
            ranges@.subrange(0, write_idx as int) == merged(s.subrange(0, read_idx as int)),
            ranges@.subrange(read_idx as int, len as int) == s.subrange(read_idx as int, len as int),
        decreases len - read_idx,
    {
        let ghost t = s.subrange(0, read_idx as int);
        let ghost t1 = s.subrange(0, read_idx + 1);
        let ghost before = ranges@;
        proof {
            assert(t1.drop_last() =~= t);
            assert forall|i: int| 0 <= i < t.len() implies (#[trigger] t[i]).base + t[i].length <= u64::MAX by {
                assert(t[i] == s[i]);
            }
            lemma_merged_end(t);
            assert(ranges@.subrange(read_idx as int, len as int)[0] == ranges@[read_idx as int]);
            assert(ranges@.subrange(0, write_idx as int)[write_idx - 1] == ranges@[write_idx - 1]);
            assert(ranges@[write_idx - 1] == merged(t).last());
            assert(ranges@[read_idx as int] == s[read_idx as int]);
            assert(t.last() == s[read_idx - 1]);
        }
        let prev = ranges[write_idx - 1];
        let curr = ranges[read_idx];
        if prev.mem_type == curr.mem_type && prev.base + prev.length == curr.base {
            let merged_range = MemoryRange { length: prev.length + curr.length, ..prev };
            ranges.set(write_idx - 1, merged_range);
            proof {
                assert(ranges@.subrange(0, write_idx as int) =~= merged(t1));
            }
        } else {
            if read_idx != write_idx {
                ranges.set(write_idx, curr);
            }
            write_idx = write_idx + 1;
            proof {
                assert(ranges@.subrange(0, write_idx as int) =~= merged(t1));
            }
        }
        proof {
            assert forall|k: int| read_idx < k < len implies ranges@[k] == s[k] by {
                assert(before[k] == before.subrange(read_idx as int, len as int)[k - read_idx]);
            }
        }
        read_idx = read_idx + 1;
        proof {
            assert(ranges@.subrange(read_idx as int, len as int) =~= s.subrange(read_idx as int, len as int));
        }
    }
    ranges.truncate(write_idx);
    proof {
        assert(s.subrange(0, len as int) =~= s);
        assert(ranges@ =~= merged(s));
        assert forall|a: int, t: RustuxMemoryType| covers(ranges@, a, t) == covers(o, a, t) by {
            lemma_merged_covers(s, a, t);
            lemma_reordered_covers(s, o, a, t);
        }
        lemma_merged_sorted(s);
    }
}

/// Offset of the PE header pointer (`e_lfanew`) in the DOS header.
pub const DOS_E_LFANEW: usize = 60;

/// Size of the COFF file header.
pub const COFF_HEADER_SIZE: usize = 20;

/// Size of the PE32+ optional header without data directories.
pub const PE_OPTIONAL_HEADER_SIZE: usize = 112;

/// The PE signature `PE\0\0`.
pub const PE_SIGNATURE: u32 = 0x0000_4550;

/// AMD64 machine type.
pub const IMAGE_FILE_MACHINE_AMD64: u16 = 0x8664;

/// PE32+ optional header magic.
pub const PE32_PLUS_MAGIC: u16 = 0x020b;

/// EFI subsystems: application, boot service driver, runtime driver.
pub const SUBSYSTEM_EFI_APPLICATION: u16 = 0x0a;
pub const SUBSYSTEM_EFI_BOOT_SERVICE_DRIVER: u16 = 0x0b;
pub const SUBSYSTEM_EFI_RUNTIME_DRIVER: u16 = 0x0c;

/// The PE header offset an image gives.
pub open spec fn pe_offset(d: Seq<u8>) -> int {
    le32(d, 60)
}

/// The verdict on a kernel image: the first failing check's message, or
/// none when it is a PE32+ x86-64 EFI image.
pub open spec fn pe_verdict(d: Seq<u8>) -> Option<&'static str> {
    let pe = pe_offset(d);
    let coff = pe + 4;
    let opt = coff + COFF_HEADER_SIZE;
    if d.len() < 64 {
        Some("File too small for DOS header")
    } else if pe == 0 || pe + 4 > d.len() {
        Some("Invalid PE offset")
    } else if le32(d, pe) != PE_SIGNATURE {
        Some("Invalid PE signature")
    } else if coff + COFF_HEADER_SIZE > d.len() {
        Some("File too small for COFF header")
    } else if opt + PE_OPTIONAL_HEADER_SIZE > d.len() {
        Some("File too small for optional header")
    } else if le16(d, coff) != IMAGE_FILE_MACHINE_AMD64 {
        Some("Wrong machine type (not x86-64)")
    } else if le16(d, opt) != PE32_PLUS_MAGIC {
        Some("Wrong PE magic (not PE32+)")
    } else if le16(d, opt + 68) != SUBSYSTEM_EFI_APPLICATION && le16(d, opt + 68)
        != SUBSYSTEM_EFI_BOOT_SERVICE_DRIVER && le16(d, opt + 68) != SUBSYSTEM_EFI_RUNTIME_DRIVER {
        Some("Wrong subsystem (not EFI)")
    } else {
        None
    }
}

/// Checks that a kernel image is a PE32+ x86-64 EFI image: sizes of the
/// DOS, COFF and optional headers, the PE offset and signature, the
/// machine, the magic and the subsystem, in that order.
pub fn validate_pe_coff(data: &[u8]) -> (r: Result<(), &'static str>)
    ensures
        match pe_verdict(data@) {
            None => r is Ok,
            Some(m) => (r matches Err(e) && e@ == m@),
        },
{
    let file_size = data.len();
    if file_size < 64 {
        return Err("File too small for DOS header");
    }
    let pe_offset_v = read_u32_le(data, DOS_E_LFANEW) as usize;
    if pe_offset_v == 0 || pe_offset_v > file_size || file_size - pe_offset_v < 4 {
        return Err("Invalid PE offset");
    }
    let signature = read_u32_le(data, pe_offset_v);
    if signature != PE_SIGNATURE {
        return Err("Invalid PE signature");
    }
    let coff_offset = pe_offset_v + 4;
    if file_size - coff_offset < COFF_HEADER_SIZE {
        return Err("File too small for COFF header");
    }
    let opt_offset = coff_offset + COFF_HEADER_SIZE;
    if file_size - opt_offset < PE_OPTIONAL_HEADER_SIZE {
        return Err("File too small for optional header");
    }
    let machine = read_u16_le(data, coff_offset);
    let magic = read_u16_le(data, opt_offset);
    let subsystem = read_u16_le(data, opt_offset + 68);
    if machine != IMAGE_FILE_MACHINE_AMD64 {
        return Err("Wrong machine type (not x86-64)");
    }
    if magic != PE32_PLUS_MAGIC {
        return Err("Wrong PE magic (not PE32+)");
    }
    if subsystem != SUBSYSTEM_EFI_APPLICATION && subsystem != SUBSYSTEM_EFI_BOOT_SERVICE_DRIVER && subsystem
        != SUBSYSTEM_EFI_RUNTIME_DRIVER {
        return Err("Wrong subsystem (not EFI)");
    }
    Ok(())
}

/// The header fields the loader reports while checking an image, as far
/// as the image holds them: the DOS magic and PE offset; the machine and
/// characteristics once the COFF header is readable; the optional
/// header's magic, subsystem and entry point once it is readable.
#[derive(PartialEq, Eq, Debug, Clone, Copy)]
pub struct PeReport {
    pub dos_magic: u16,
    pub pe_offset: u32,
    pub coff: Option<(u16, u16)>,
    pub optional: Option<(u16, u16, u32)>,
}

/// The report on an image with at least a DOS header.
pub fn pe_report(data: &[u8]) -> (r: PeReport)
    requires
        data@.len() >= 64,
    ensures
        r.dos_magic == le16(data@, 0),
        r.pe_offset == pe_offset(data@),
        match r.coff {
            Some((machine, characteristics)) => pe_offset(data@) != 0 && pe_offset(data@) + 24 <= data@.len()
                && le32(data@, pe_offset(data@)) == PE_SIGNATURE && machine == le16(data@, pe_offset(data@) + 4)
                && characteristics == le16(data@, pe_offset(data@) + 22),
            None => pe_offset(data@) == 0 || pe_offset(data@) + 24 > data@.len() || le32(data@, pe_offset(data@))
                != PE_SIGNATURE,
        },
        match r.optional {
            Some((magic, subsystem, entry)) => r.coff is Some && pe_offset(data@) + 24 + 112 <= data@.len() && magic
                == le16(data@, pe_offset(data@) + 24) && subsystem == le16(data@, pe_offset(data@) + 24 + 68) && entry
                == le32(data@, pe_offset(data@) + 24 + 16),
            None => r.coff is None || pe_offset(data@) + 24 + 112 > data@.len(),
        },
{
    let dos_magic = read_u16_le(data, 0);
    let pe = read_u32_le(data, DOS_E_LFANEW);
    let file_size = data.len();
    let pe_offset_v = pe as usize;
    if pe_offset_v == 0 || pe_offset_v > file_size || file_size - pe_offset_v < 24 || read_u32_le(data, pe_offset_v)
        != PE_SIGNATURE {
        return PeReport { dos_magic, pe_offset: pe, coff: None, optional: None };
    }
    let coff_offset = pe_offset_v + 4;
    let machine = read_u16_le(data, coff_offset);
    let characteristics = read_u16_le(data, coff_offset + 18);
    let opt_offset = coff_offset + COFF_HEADER_SIZE;
    if file_size - opt_offset < PE_OPTIONAL_HEADER_SIZE {
        return PeReport { dos_magic, pe_offset: pe, coff: Some((machine, characteristics)), optional: None };
    }
    let magic = read_u16_le(data, opt_offset);
    let subsystem = read_u16_le(data, opt_offset + 68);
    let entry = read_u32_le(data, opt_offset + 16);
    PeReport { dos_magic, pe_offset: pe, coff: Some((machine, characteristics)), optional: Some((magic, subsystem, entry)) }
}

/// Where the loader jumps when the firmware refuses the image: the image
/// base plus the 32-bit value it reads at twice the PE offset plus 0x28
/// (the optional header offset taken from the PE header rather than from
/// the image start).
pub fn fallback_entry_point(data: &[u8], image_base: u64) -> (r: u64)
    requires
        data@.len() >= 64,
        2 * pe_offset(data@) + 0x28 + 4 <= data.len(),
        image_base + le32(data@, 2 * pe_offset(data@) + 0x28) <= u64::MAX,
    ensures
        r == image_base + le32(data@, 2 * pe_offset(data@) + 0x28),
{
    let pe_offset_v = read_u32_le(data, 0x3C) as usize;
    let optional_header_offset = pe_offset_v + 0x18;
    let rva = read_u32_le(data, pe_offset_v + optional_header_offset + 0x10);
    image_base + rva as u64
}

/// Pixel order of the framebuffer handed to the kernel.
#[derive(PartialEq, Eq, Structural, Debug, Clone, Copy)]
pub enum FramebufferFormat {
    RGB,
    BGR,
}

/// The framebuffer handed to the kernel.
#[derive(PartialEq, Eq, Structural, Debug, Clone, Copy)]
pub struct FramebufferInfo {
    pub base: u64,
    pub size: u64,
    pub width: u32,
    pub height: u32,
    pub stride: u32,
    pub format: FramebufferFormat,
}

/// What the loader hands to the kernel: the coalesced memory map, the
/// firmware tables it found and the framebuffer.
#[derive(Debug)]
pub struct KernelHandoff {
    pub memory_map: Vec<MemoryRange>,
    pub acpi_rsdp: Option<u64>,
    pub smbios_entry: Option<u64>,
    pub system_table: u64,
    pub framebuffer: Option<FramebufferInfo>,
}

} // verus!
