//! ELF64 images: header layout and the load plan of an executable (where
//! each loadable segment goes, what is copied and what is zeroed).

use vstd::prelude::*;
use crate::bytes::{le16, le32, le64, read_u16_le, read_u32_le, read_u64_le};
use crate::runtime::{KernelRuntime, LoadedBinary, first_free_region};

verus! {

/// ELF file header.
#[derive(PartialEq, Eq, Debug, Clone, Copy)]
pub struct ElfHeader {
    pub e_ident: [u8; 16],
    pub e_type: u16,
    pub e_machine: u16,
    pub e_version: u32,
    pub e_entry: u64,
    pub e_phoff: u64,
    pub e_shoff: u64,
    pub e_flags: u32,
    pub e_ehsize: u16,
    pub e_phentsize: u16,
    pub e_phnum: u16,
    pub e_shentsize: u16,
    pub e_shnum: u16,
    pub e_shstrndx: u16,
}

/// ELF program header.
#[derive(PartialEq, Eq, Structural, Debug, Clone, Copy)]
pub struct ElfProgramHeader {
    pub p_type: u32,
    pub p_flags: u32,
    pub p_offset: u64,
    pub p_vaddr: u64,
    pub p_paddr: u64,
    pub p_filesz: u64,
    pub p_memsz: u64,
    pub p_align: u64,
}

/// Program header types.
pub const PT_NULL: u32 = 0;
pub const PT_LOAD: u32 = 1;
pub const PT_DYNAMIC: u32 = 2;
pub const PT_INTERP: u32 = 3;
pub const PT_NOTE: u32 = 4;
pub const PT_SHLIB: u32 = 5;
pub const PT_PHDR: u32 = 6;
pub const PT_TLS: u32 = 7;

/// Program header flags.
pub const PF_X: u32 = 1;
pub const PF_W: u32 = 2;
pub const PF_R: u32 = 4;

/// Size of a program header entry.
pub const PHDR_SIZE: usize = 56;

/// Header fields of an image.
pub open spec fn e_entry(d: Seq<u8>) -> int {
    le64(d, 24)
}

pub open spec fn e_phoff(d: Seq<u8>) -> int {
    le64(d, 32)
}

pub open spec fn e_phentsize(d: Seq<u8>) -> int {
    le16(d, 54)
}

pub open spec fn e_phnum(d: Seq<u8>) -> int {
    le16(d, 56)
}

/// File offset of program header `i`.
pub open spec fn ph_at(d: Seq<u8>, i: int) -> int {
    e_phoff(d) + i * e_phentsize(d)
}

/// Whether program header `i` lies inside the file.
pub open spec fn ph_in_file(d: Seq<u8>, i: int) -> bool {
    ph_at(d, i) + e_phentsize(d) <= d.len()
}

/// Fields of program header `i`.
pub open spec fn p_type(d: Seq<u8>, i: int) -> int {
    le32(d, ph_at(d, i))
}

pub open spec fn p_offset(d: Seq<u8>, i: int) -> int {
    le64(d, ph_at(d, i) + 8)
}

pub open spec fn p_vaddr(d: Seq<u8>, i: int) -> int {
    le64(d, ph_at(d, i) + 16)
}

pub open spec fn p_filesz(d: Seq<u8>, i: int) -> int {
    le64(d, ph_at(d, i) + 32)
}

pub open spec fn p_memsz(d: Seq<u8>, i: int) -> int {
    le64(d, ph_at(d, i) + 40)
}

/// Whether program header `i` is a loadable segment.
pub open spec fn is_load(d: Seq<u8>, i: int) -> bool {
    p_type(d, i) == PT_LOAD
}

/// The identification checks: size, magic, 64-bit class, little-endian.
pub open spec fn ident_error(d: Seq<u8>) -> Option<&'static str> {
    if d.len() < 64 || d[0] != 0x7f || d[1] != 0x45 || d[2] != 0x4c || d[3] != 0x46 {
        Some("Invalid ELF magic")
    } else if d[4] != 2 {
        Some("Not a 64-bit ELF")
    } else if d[5] != 1 {
        Some("Not little-endian")
    } else {
        None
    }
}

/// Whether every program header lies in the file and is large enough.
pub open spec fn headers_ok(d: Seq<u8>) -> bool {
    e_phnum(d) == 0 || (e_phentsize(d) >= PHDR_SIZE && ph_in_file(d, e_phnum(d) - 1))
}

/// The error the program header table gives: the first header that
/// fails decides, whether it lies outside the file or is too small.
pub open spec fn header_error(d: Seq<u8>) -> &'static str {
    if ph_in_file(d, 0) && e_phentsize(d) < PHDR_SIZE {
        "Invalid program header"
    } else {
        "Program header outside file"
    }
}

/// Whether loadable segment `i` has its file bytes inside the file.
pub open spec fn segment_in_file(d: Seq<u8>, i: int) -> bool {
    is_load(d, i) ==> p_offset(d, i) + p_filesz(d, i) <= d.len()
}

/// Lowest virtual address of the loadable segments among the first `n`
/// headers (the maximum `u64` when there is none).
pub open spec fn min_vaddr(d: Seq<u8>, n: int) -> int
    decreases n,
{
    if n <= 0 {
        u64::MAX as int
    } else {
        let m = min_vaddr(d, n - 1);
        if is_load(d, n - 1) && p_vaddr(d, n - 1) < m {
            p_vaddr(d, n - 1)
        } else {
            m
        }
    }
}

/// Highest segment end (`vaddr + memsz`) of the loadable segments among
/// the first `n` headers (0 when there is none).
pub open spec fn max_end(d: Seq<u8>, n: int) -> int
    decreases n,
{
    if n <= 0 {
        0
    } else {
        let m = max_end(d, n - 1);
        if is_load(d, n - 1) && p_vaddr(d, n - 1) + p_memsz(d, n - 1) > m {
            p_vaddr(d, n - 1) + p_memsz(d, n - 1)
        } else {
            m
        }
    }
}

/// Size of the span from `lo` to `hi`, in wrapping 64-bit arithmetic:
/// without a loadable segment the bounds stay at 0 and `u64::MAX`, which
/// gives 1.
pub open spec fn span(hi: int, lo: int) -> u64 {
    if hi - lo < 0 {
        (hi - lo + 0x1_0000_0000_0000_0000) as u64
    } else {
        (hi - lo) as u64
    }
}

/// The load base for a free region starting at `free`: rounded up to a
/// 4 KiB page.
pub open spec fn load_base(free: u64) -> int {
    ((free + 0xfff) as u64 & !0xfffu64) as int
}

/// One loadable segment to place: copy `file_size` bytes from
/// `file_offset` to `dest`, then zero `zero_size` bytes after them.
#[derive(PartialEq, Eq, Structural, Debug, Clone, Copy)]
pub struct SegmentLoad {
    pub dest: u64,
    pub file_offset: u64,
    pub file_size: u64,
    pub zero_size: u64,
}

/// The placement of loadable segment `i` at `base`.
pub open spec fn segment_load(d: Seq<u8>, base: int, i: int) -> SegmentLoad {
    SegmentLoad {
        dest: (base + p_vaddr(d, i)) as u64,
        file_offset: p_offset(d, i) as u64,
        file_size: p_filesz(d, i) as u64,
        zero_size: (if p_memsz(d, i) > p_filesz(d, i) { p_memsz(d, i) - p_filesz(d, i) } else { 0 }) as u64,
    }
}

/// The placements of the loadable segments among the first `n` headers,
/// in header order.
pub open spec fn segment_loads(d: Seq<u8>, base: int, n: int) -> Seq<SegmentLoad>
    decreases n,
{
    if n <= 0 {
        Seq::empty()
    } else if is_load(d, n - 1) {
        segment_loads(d, base, n - 1).push(segment_load(d, base, n - 1))
    } else {
        segment_loads(d, base, n - 1)
    }
}

/// Where arithmetic on the image stays in `u64` as the loader does it:
/// the first header's end, the end of every loadable segment whose header
/// the first pass reads, the rounded base and entry point, and each
/// placement the second pass reaches.
pub open spec fn load_arith_ok(d: Seq<u8>, free: Option<u64>) -> bool {
    &&& d.len() < 0x8000_0000_0000_0000
    &&& (ident_error(d) is None && e_phnum(d) > 0 ==> e_phoff(d) + e_phentsize(d) <= u64::MAX)
    &&& (ident_error(d) is None ==> forall|i: int|
        0 <= i < e_phnum(d) && ph_in_file(d, i) && e_phentsize(d) >= PHDR_SIZE && is_load(d, i)
            ==> #[trigger] p_vaddr(d, i) + p_memsz(d, i) <= u64::MAX)
    &&& (ident_error(d) is None && headers_ok(d) && free is Some) ==> {
        &&& free->0 + 0xfff <= u64::MAX
        &&& load_base(free->0) + e_entry(d) <= u64::MAX
        &&& forall|i: int|
            0 <= i < e_phnum(d) && is_load(d, i) && (forall|j: int| 0 <= j < i ==> segment_in_file(d, j))
                ==> #[trigger] p_offset(d, i) + p_filesz(d, i) <= u64::MAX && load_base(free->0) + p_vaddr(d, i)
                + p_filesz(d, i) <= u64::MAX
    }
}

/// What loading the image gives: the first failing check's message, or
/// where the binary goes and the segments to place.
pub open spec fn load_outcome(d: Seq<u8>, free: Option<u64>) -> Result<(LoadedBinary, Seq<SegmentLoad>), &'static str> {
    if ident_error(d) is Some {
        Err(ident_error(d)->0)
    } else if !headers_ok(d) {
        Err(header_error(d))
    } else if free is None {
        Err("No free memory")
    } else if exists|i: int| 0 <= i < e_phnum(d) && !segment_in_file(d, i) {
        Err("Segment outside file")
    } else {
        let base = load_base(free->0);
        Ok(
            (
                LoadedBinary {
                    entry_point: (base + e_entry(d)) as u64,
                    base_address: base as u64,
                    size: span(max_end(d, e_phnum(d)), min_vaddr(d, e_phnum(d))),
                },
                segment_loads(d, base, e_phnum(d)),
            ),
        )
    }
}

/// Whether a placement is the one of loadable header `i` for a binary
/// loaded at `base`: it copies that segment's `p_filesz` bytes from its
/// `p_offset` to `base + p_vaddr` (in 64-bit arithmetic), and the copied and zeroed bytes together
/// cover exactly `max(p_memsz, p_filesz)`, nothing being zeroed when
/// `p_memsz <= p_filesz`.
pub open spec fn places_header(s: SegmentLoad, d: Seq<u8>, base: int, i: int) -> bool {
    &&& is_load(d, i)
    &&& s.dest == (base + p_vaddr(d, i)) as u64
    &&& s.file_offset == p_offset(d, i)
    &&& s.file_size == p_filesz(d, i)
    &&& s.file_size + s.zero_size == (if p_memsz(d, i) > p_filesz(d, i) { p_memsz(d, i) } else { p_filesz(d, i) })
    &&& (p_memsz(d, i) <= p_filesz(d, i) ==> s.zero_size == 0)
}

/// Whether a placement is that of one of the first `n` headers, for a
/// binary loaded at `base`.
pub open spec fn placed_from_header(s: SegmentLoad, d: Seq<u8>, base: int, n: int) -> bool {
    exists|i: int| 0 <= i < n && places_header(s, d, base, i)
}

proof fn lemma_segment_loads_sizes(d: Seq<u8>, base: int, n: int)
    ensures
        forall|k: int|
            0 <= k < segment_loads(d, base, n).len() ==> placed_from_header(
                #[trigger] segment_loads(d, base, n)[k],
                d,
                base,
                n,
            ),
    decreases n,
{
    if n > 0 {
        lemma_segment_loads_sizes(d, base, n - 1);
        let prev = segment_loads(d, base, n - 1);
        crate::bytes::lemma_le64_range(d, ph_at(d, n - 1) + 8);
        crate::bytes::lemma_le64_range(d, ph_at(d, n - 1) + 32);
        crate::bytes::lemma_le64_range(d, ph_at(d, n - 1) + 40);
        assert forall|k: int| 0 <= k < segment_loads(d, base, n).len() implies placed_from_header(
            #[trigger] segment_loads(d, base, n)[k],
            d,
            base,
            n,
        ) by {
            let s = segment_loads(d, base, n)[k];
            if k < prev.len() {
                assert(s == prev[k]);
                assert(placed_from_header(prev[k], d, base, n - 1));
                let i = choose|i: int| 0 <= i < n - 1 && places_header(prev[k], d, base, i);
                assert(places_header(s, d, base, i));
            } else {
                assert(s == segment_load(d, base, n - 1));
                assert(places_header(s, d, base, n - 1));
            }
        }
    }
}

/// A successful load plans, for each placement, the copy of one loadable
/// segment's file bytes (`p_filesz` from `p_offset` to the binary's base
/// plus `p_vaddr`) followed by the zeroing
/// of its `.bss`: copied plus zeroed bytes are exactly `max(p_memsz,
/// p_filesz)`, and nothing is zeroed when `p_memsz <= p_filesz`.
pub proof fn lemma_load_plan_sizes(d: Seq<u8>, free: Option<u64>)
    ensures
        load_outcome(d, free) matches Ok((b, segs)) ==> forall|k: int|
            0 <= k < segs.len() ==> placed_from_header(#[trigger] segs[k], d, b.base_address as int, e_phnum(d)),
{
    if let Some(f) = free {
        lemma_segment_loads_sizes(d, load_base(f), e_phnum(d));
    }
}

/// Error strings compared by content.
pub open spec fn same_outcome(
    r: Result<(LoadedBinary, Vec<SegmentLoad>), &'static str>,
    o: Result<(LoadedBinary, Seq<SegmentLoad>), &'static str>,
) -> bool {
    match (r, o) {
        (Ok((b, v)), Ok((b2, s))) => b == b2 && v@ == s,
        (Err(m), Err(m2)) => m@ == m2@,
        _ => false,
    }
}

/// The file offsets of program headers grow with the index.
proof fn lemma_ph_at_step(d: Seq<u8>, i: int)
    requires
        0 <= i,
    ensures
        ph_at(d, i + 1) == ph_at(d, i) + e_phentsize(d),
        ph_at(d, i) == e_phoff(d) + i * e_phentsize(d),
{
    assert((i + 1) * e_phentsize(d) == i * e_phentsize(d) + e_phentsize(d)) by (nonlinear_arith);
}

/// Headers before one inside the file are inside it too.
proof fn lemma_ph_in_file_mono(d: Seq<u8>, i: int, j: int)
    requires
        0 <= i <= j,
        e_phentsize(d) >= 0,
        ph_in_file(d, j),
    ensures
        ph_in_file(d, i),
{
    assert(i * e_phentsize(d) <= j * e_phentsize(d)) by (nonlinear_arith)
        requires
            i <= j,
            e_phentsize(d) >= 0,
    ;
}

impl KernelRuntime {
    /// Plans loading an ELF64 executable: checks the identification and
    /// the program header table, takes a 256-page region of free memory
    /// rounded up to a page as the base, and lists each loadable segment's
    /// placement; the entry point is the base plus `e_entry` and the size
    /// the span of the segments' virtual addresses (see `span`).
    pub fn load_elf(&self, data: &[u8]) -> (r: Result<(LoadedBinary, Vec<SegmentLoad>), &'static str>)
        requires
            load_arith_ok(data@, first_free_region(self.memory_map@, 256)),
        ensures
            same_outcome(r, load_outcome(data@, first_free_region(self.memory_map@, 256))),
    {
        let ghost d = data@;
        if data.len() < 64 || data[0] != 0x7f || data[1] != 0x45 || data[2] != 0x4c || data[3] != 0x46 {
            return Err("Invalid ELF magic");
        }
        if data[4] != 2 {
            return Err("Not a 64-bit ELF");
        }
        if data[5] != 1 {
            return Err("Not little-endian");
        }
        let e_entry_v = read_u64_le(data, 24);
        let e_phoff_v = read_u64_le(data, 32);
        let phentsize = read_u16_le(data, 54) as usize;
        let phnum = read_u16_le(data, 56) as usize;
        let len = data.len() as u64;
        let mut min_v: u64 = u64::MAX;
        let mut max_v: u64 = 0;
        let mut i: usize = 0;
        while i < phnum
            invariant
                d == data@,
                ident_error(d) is None,
                load_arith_ok(d, first_free_region(self.memory_map@, 256)),
                e_phoff_v == e_phoff(d),
                phentsize == e_phentsize(d),
                phnum == e_phnum(d),
                len == d.len(),
                0 <= i <= phnum,
                i > 0 ==> ph_in_file(d, i - 1) && phentsize >= PHDR_SIZE,
                min_v == min_vaddr(d, i as int),
                max_v == max_end(d, i as int),
            decreases phnum - i,
        {
            proof {
                lemma_ph_at_step(d, i as int);
                if i > 0 {
                    lemma_ph_at_step(d, i - 1);
                }
            }
            assert(i * phentsize <= 0xFFFF * 0xFFFF) by (nonlinear_arith)
                requires
                    i <= 0xFFFF,
                    phentsize <= 0xFFFF,
            ;
            let ph_offset = e_phoff_v + (i * phentsize) as u64;
            assert(ph_offset == ph_at(d, i as int));
            if ph_offset + phentsize as u64 > len {
                proof {
                    if ph_in_file(d, 0) && phentsize < PHDR_SIZE {
                        assert(i == 0);
                    }
                    if headers_ok(d) && phnum > 0 {
                        lemma_ph_in_file_mono(d, i as int, phnum - 1);
                    }
                }
                return Err("Program header outside file");
            }
            if phentsize < PHDR_SIZE {
                proof {
                    assert(i == 0);
                    assert(!headers_ok(d));
                }
                return Err("Invalid program header");
            }
            assert(ph_offset + phentsize <= data.len());
            let off = ph_offset as usize;
            let ptype = read_u32_le(data, off);
            let vaddr = read_u64_le(data, off + 16);
            let memsz = read_u64_le(data, off + 40);
            if ptype == PT_LOAD {
                assert(p_vaddr(d, i as int) + p_memsz(d, i as int) <= u64::MAX);
                if vaddr < min_v {
                    min_v = vaddr;
                }
                let segment_end = vaddr + memsz;
                if segment_end > max_v {
                    max_v = segment_end;
                }
            }
            i = i + 1;
        }
        assert(headers_ok(d));
        let base_address = match self.find_free_memory(256) {
            Some(b) => b,
            None => {
                return Err("No free memory");
            },
        };
        let ghost free = first_free_region(self.memory_map@, 256);
        let aligned_base = (base_address + 0xfff) & !0xfffu64;
        let mut segs: Vec<SegmentLoad> = Vec::new();
        let mut k: usize = 0;
        while k < phnum
            invariant
                d == data@,
                ident_error(d) is None,
                headers_ok(d),
                free == Some(base_address),
                free == first_free_region(self.memory_map@, 256),
                load_arith_ok(d, free),
                aligned_base == load_base(base_address),
                e_phoff_v == e_phoff(d),
                phentsize == e_phentsize(d),
                phnum == e_phnum(d),
                len == d.len(),
                0 <= k <= phnum,
                forall|j: int| 0 <= j < k ==> segment_in_file(d, j),
                segs@ == segment_loads(d, aligned_base as int, k as int),
            decreases phnum - k,
        {
            proof {
                lemma_ph_at_step(d, k as int);
                lemma_ph_in_file_mono(d, k as int, phnum - 1);
            }
            assert(k * phentsize <= 0xFFFF * 0xFFFF) by (nonlinear_arith)
                requires
                    k <= 0xFFFF,
                    phentsize <= 0xFFFF,
            ;
            let ph_offset = e_phoff_v + (k * phentsize) as u64;
            assert(ph_offset == ph_at(d, k as int));
            assert(ph_offset + phentsize <= data.len());
            let off = ph_offset as usize;
            let ptype = read_u32_le(data, off);
            let poffset = read_u64_le(data, off + 8);
            let vaddr = read_u64_le(data, off + 16);
            let filesz = read_u64_le(data, off + 32);
            let memsz = read_u64_le(data, off + 40);
            if ptype == PT_LOAD {
                assert(p_offset(d, k as int) + p_filesz(d, k as int) <= u64::MAX);
                let load_addr = aligned_base + vaddr;
                let file_end = poffset + filesz;
                if file_end > len {
                    proof {
                        assert(!segment_in_file(d, k as int));
                    }
                    return Err("Segment outside file");
                }
                let zero = if memsz > filesz {
                    memsz - filesz
                } else {
                    0
                };
                segs.push(SegmentLoad { dest: load_addr, file_offset: poffset, file_size: filesz, zero_size: zero });
            }
            k = k + 1;
        }
        Ok(
            (
                LoadedBinary {
                    entry_point: aligned_base + e_entry_v,
                    base_address: aligned_base,
                    size: max_v.wrapping_sub(min_v),
                },
                segs,
            ),
        )
    }
}

} // verus!
