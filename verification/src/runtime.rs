//! Kernel runtime after boot services have exited: the initialization
//! record, the bump allocator, interrupt descriptors, the interrupt
//! controller and scheduler stubs, the memory map and processes.
//!
//! Runtime initialization order: memory allocator, exception handlers,
//! interrupt controller, idle loop, scheduler.

use vstd::prelude::*;

verus! {

/// Which runtime components have been initialized.
#[derive(PartialEq, Eq, Structural, Debug, Clone, Copy)]
pub struct RuntimeInitFlags {
    pub memory_allocator: bool,
    pub exception_handlers: bool,
    pub interrupt_controller: bool,
    pub idle_loop: bool,
    pub scheduler: bool,
}

impl RuntimeInitFlags {
    /// Nothing initialized.
    pub fn new() -> (r: Self)
        ensures
            !r.memory_allocator,
            !r.exception_handlers,
            !r.interrupt_controller,
            !r.idle_loop,
            !r.scheduler,
    {
        RuntimeInitFlags {
            memory_allocator: false,
            exception_handlers: false,
            interrupt_controller: false,
            idle_loop: false,
            scheduler: false,
        }
    }

    /// Whether every component has been initialized.
    pub fn is_fully_initialized(&self) -> (r: bool)
        ensures
            r == (self.memory_allocator && self.exception_handlers && self.interrupt_controller
                && self.idle_loop && self.scheduler),
    {
        self.memory_allocator && self.exception_handlers && self.interrupt_controller && self.idle_loop
            && self.scheduler
    }
}

/// `c` rounded up by the mask of `align`: `(c + align - 1) & !(align - 1)`,
/// the next multiple of `align` at or above `c` when `align` is a power of
/// two.
pub open spec fn align_up(c: u64, align: u64) -> u64 {
    ((c + align - 1) as u64) & !((align - 1) as u64)
}

/// Whether `a` is a power of two.
pub open spec fn is_pow2(a: u64) -> bool {
    a != 0 && a & ((a - 1) as u64) == 0
}

/// A bump allocator over `[start, end)`: `current` is the first free
/// address.
pub struct BumpAllocator {
    pub start: u64,
    pub end: u64,
    pub current: u64,
}

impl BumpAllocator {
    /// The allocator's invariant: `start <= current <= end`.
    pub open spec fn wf(&self) -> bool {
        self.start <= self.current <= self.end
    }

    /// An allocator over the `size` bytes from `start`, all free.
    pub fn new(start: u64, size: u64) -> (r: Self)
        requires
            start + size <= u64::MAX,
        ensures
            r.wf(),
            r.start == start,
            r.end == start + size,
            r.current == start,
    {
        BumpAllocator { start, end: start + size, current: start }
    }

    /// Allocates `size` bytes aligned by `align`: the block starts at the
    /// free address rounded up by the alignment mask; `None`, with nothing
    /// changed, when the block would pass the end.
    pub fn allocate(&mut self, size: u64, align: u64) -> (r: Option<u64>)
        requires
            old(self).wf(),
            align >= 1,
            old(self).current + align - 1 <= u64::MAX,
            align_up(old(self).current, align) + size <= u64::MAX,
        ensures
            final(self).wf(),
            final(self).start == old(self).start,
            final(self).end == old(self).end,
            match r {
                Some(a) => {
                    &&& a == align_up(old(self).current, align)
                    &&& old(self).current <= a
                    &&& a + size <= old(self).end
                    &&& final(self).current == a + size
                },
                None => align_up(old(self).current, align) + size > old(self).end && *final(self)
                    == *old(self),
            },
    {
        let m = align - 1;
        let c = self.current;
        let aligned_current = (c + m) & !m;
        assert(aligned_current >= c) by (bit_vector)
            requires
                c + m <= u64::MAX,
                aligned_current == ((c + m) as u64) & !m,
        ;
        let new_current = aligned_current + size;
        if new_current > self.end {
            return None;
        }
        self.current = new_current;
        Some(aligned_current)
    }

    /// Free bytes left.
    pub fn available(&self) -> (r: u64)
        requires
            self.wf(),
        ensures
            r == self.end - self.current,
    {
        self.end - self.current
    }
}

/// With a power-of-two alignment, the block the allocator hands out is
/// aligned (no bit below the alignment set) and starts less than one
/// alignment past the free address.
pub proof fn lemma_align_up_pow2(c: u64, align: u64)
    requires
        is_pow2(align),
        c + align - 1 <= u64::MAX,
    ensures
        align_up(c, align) & ((align - 1) as u64) == 0,
        c <= align_up(c, align) < c + align,
{
    let m = (align - 1) as u64;
    let x = (c + m) as u64;
    assert((x & !m) & m == 0) by (bit_vector);
    assert(c + m <= u64::MAX ==> c <= (((c + m) as u64) & !m)) by (bit_vector);
    assert((x & !m) <= x) by (bit_vector);
}

/// Rounding up by the alignment mask never moves below the address.
pub proof fn lemma_align_up_ge(c: u64, align: u64)
    requires
        align >= 1,
        c + align - 1 <= u64::MAX,
    ensures
        c <= align_up(c, align),
{
    let m = (align - 1) as u64;
    assert(c + m <= u64::MAX ==> c <= (((c + m) as u64) & !m)) by (bit_vector);
}

/// Blocks handed out by two successive allocations do not overlap: the
/// second starts at or after the end of the first.
pub proof fn lemma_allocations_disjoint(
    a0: BumpAllocator,
    size1: u64,
    align1: u64,
    a1: BumpAllocator,
    size2: u64,
    align2: u64,
)
    requires
        a0.wf(),
        align1 >= 1,
        a0.current + align1 - 1 <= u64::MAX,
        align_up(a0.current, align1) + size1 <= a0.end,
        a1.current == align_up(a0.current, align1) + size1,
        align2 >= 1,
        a1.current + align2 - 1 <= u64::MAX,
    ensures
        align_up(a0.current, align1) + size1 <= align_up(a1.current, align2),
{
    lemma_align_up_ge(a1.current, align2);
}

/// Number of CPU exception vectors.
pub const NUM_EXCEPTION_VECTORS: usize = 32;

/// IDT vector of the keyboard interrupt (IRQ1 remapped to 32 + 1).
pub const KEYBOARD_VECTOR: usize = 33;

/// Type attribute of a present 64-bit interrupt gate.
pub const GATE_INTERRUPT: u8 = 0x8E;

/// Type attribute of a present 64-bit trap gate.
pub const GATE_TRAP: u8 = 0x8F;

/// An x86_64 interrupt descriptor table entry.
#[derive(PartialEq, Eq, Structural, Debug, Clone, Copy)]
pub struct IdtEntry {
    /// Bits 0-15 of the handler address.
    pub offset_low: u16,
    /// Code segment selector.
    pub selector: u16,
    /// Interrupt stack table index.
    pub ist: u8,
    /// Type and attributes.
    pub type_attr: u8,
    /// Bits 16-31 of the handler address.
    pub offset_mid: u16,
    /// Bits 32-63 of the handler address.
    pub offset_high: u32,
    /// Reserved, zero.
    pub reserved: u32,
}

/// The handler address an entry points at.
pub open spec fn idt_handler(e: IdtEntry) -> int {
    e.offset_low + e.offset_mid * 0x1_0000 + e.offset_high * 0x1_0000_0000
}

impl IdtEntry {
    /// An entry for `handler` with the given selector and attributes; the
    /// address is split into its low, middle and high parts.
    pub fn new(handler: u64, selector: u16, type_attr: u8) -> (r: Self)
        ensures
            r.offset_low == handler % 0x1_0000,
            r.offset_mid == (handler / 0x1_0000) % 0x1_0000,
            r.offset_high == handler / 0x1_0000_0000,
            r.selector == selector,
            r.type_attr == type_attr,
            r.ist == 0,
            r.reserved == 0,
    {
        proof {
            crate::bits::lemma_u64_fields();
        }
        assert(handler & 0xFFFF == handler % 0x1_0000);
        assert((handler >> 16) & 0xFFFF == (handler / 0x1_0000) % 0x1_0000);
        assert((handler >> 32) & 0xFFFF_FFFF == handler / 0x1_0000_0000);
        IdtEntry {
            offset_low: (handler & 0xFFFF) as u16,
            selector,
            ist: 0,
            type_attr,
            offset_mid: ((handler >> 16) & 0xFFFF) as u16,
            offset_high: ((handler >> 32) & 0xFFFF_FFFF) as u32,
            reserved: 0,
        }
    }

    /// An interrupt gate (present, kernel level, type 0xE).
    pub fn interrupt_gate(handler: u64, selector: u16) -> (r: Self)
        ensures
            r == IdtEntry::new_spec(handler, selector, GATE_INTERRUPT),
    {
        IdtEntry::new(handler, selector, GATE_INTERRUPT)
    }

    /// A trap gate (present, kernel level, type 0xF).
    pub fn trap_gate(handler: u64, selector: u16) -> (r: Self)
        ensures
            r == IdtEntry::new_spec(handler, selector, GATE_TRAP),
    {
        IdtEntry::new(handler, selector, GATE_TRAP)
    }

    /// An absent entry: all zero.
    pub fn absent() -> (r: Self)
        ensures
            r == (IdtEntry {
                offset_low: 0,
                selector: 0,
                ist: 0,
                type_attr: 0,
                offset_mid: 0,
                offset_high: 0,
                reserved: 0,
            }),
    {
        IdtEntry { offset_low: 0, selector: 0, ist: 0, type_attr: 0, offset_mid: 0, offset_high: 0, reserved: 0 }
    }

    /// The entry `new` builds.
    pub open spec fn new_spec(handler: u64, selector: u16, type_attr: u8) -> IdtEntry {
        IdtEntry {
            offset_low: (handler % 0x1_0000) as u16,
            selector,
            ist: 0,
            type_attr,
            offset_mid: ((handler / 0x1_0000) % 0x1_0000) as u16,
            offset_high: (handler / 0x1_0000_0000) as u32,
            reserved: 0,
        }
    }
}

/// An entry built for a handler points back at that handler.
pub proof fn lemma_idt_entry_handler(handler: u64, selector: u16, type_attr: u8)
    ensures
        idt_handler(IdtEntry::new_spec(handler, selector, type_attr)) == handler,
{
    let h = handler as int;
    assert(h == h % 0x1_0000 + ((h / 0x1_0000) % 0x1_0000) * 0x1_0000 + (h / 0x1_0000_0000) * 0x1_0000_0000)
        by (nonlinear_arith)
        requires
            0 <= h,
    ;
}

/// The IDT register image for `lidt`: the table's base and its size in
/// bytes minus one.
#[derive(PartialEq, Eq, Structural, Debug, Clone, Copy)]
pub struct IdtPointer {
    pub limit: u16,
    pub base: u64,
}

impl IdtPointer {
    /// A descriptor-table register image.
    pub fn new(base: u64, limit: u16) -> (r: Self)
        ensures
            r.base == base,
            r.limit == limit,
    {
        IdtPointer { limit, base }
    }
}

/// The register image for the full 256-entry table of 16-byte entries at
/// `base`.
pub fn idt_pointer_for(base: u64) -> (r: IdtPointer)
    ensures
        r.base == base,
        r.limit == 256 * 16 - 1,
{
    IdtPointer::new(base, 4095)
}

/// The IDT entry for CPU exception `vector`: a trap gate for the
/// breakpoint (vector 3), an interrupt gate for every other.
pub fn exception_gate(vector: usize, handler: u64, selector: u16) -> (r: IdtEntry)
    ensures
        r == IdtEntry::new_spec(handler, selector, if vector == 3 { GATE_TRAP } else { GATE_INTERRUPT }),
{
    if vector == 3 {
        IdtEntry::trap_gate(handler, selector)
    } else {
        IdtEntry::interrupt_gate(handler, selector)
    }
}

/// The 32 exception entries of the IDT for the given stub addresses.
pub fn exception_entries(stubs: &[u64; 32], selector: u16) -> (r: Vec<IdtEntry>)
    ensures
        r@.len() == 32,
        forall|i: int|
            0 <= i < 32 ==> #[trigger] r@[i] == IdtEntry::new_spec(
                stubs@[i],
                selector,
                if i == 3 { GATE_TRAP } else { GATE_INTERRUPT },
            ),
{
    let mut v: Vec<IdtEntry> = Vec::new();
    let mut i: usize = 0;
    while i < 32
        invariant
            0 <= i <= 32,
            v@.len() == i,
            forall|j: int|
                0 <= j < i ==> #[trigger] v@[j] == IdtEntry::new_spec(
                    stubs@[j],
                    selector,
                    if j == 3 { GATE_TRAP } else { GATE_INTERRUPT },
                ),
        decreases 32 - i,
    {
        let e = exception_gate(i, stubs[i], selector);
        v.push(e);
        i = i + 1;
    }
    v
}

/// The keyboard's IDT entry: an interrupt gate at vector 33.
pub fn keyboard_gate(handler: u64, selector: u16) -> (r: (usize, IdtEntry))
    ensures
        r.0 == KEYBOARD_VECTOR,
        r.1 == IdtEntry::new_spec(handler, selector, GATE_INTERRUPT),
{
    (KEYBOARD_VECTOR, IdtEntry::interrupt_gate(handler, selector))
}

/// An exception frame as the CPU pushes it.
#[derive(PartialEq, Eq, Structural, Debug, Clone, Copy)]
pub struct ExceptionFrame {
    pub rip: u64,
    pub cs: u64,
    pub rflags: u64,
    pub rsp: u64,
    pub ss: u64,
}

/// Legacy PIC ports.
pub const PIC1_COMMAND: u16 = 0x20;
pub const PIC1_DATA: u16 = 0x21;
pub const PIC2_COMMAND: u16 = 0xA0;
pub const PIC2_DATA: u16 = 0xA1;

/// The port writes that remap the PICs to vectors 32-47 and unmask only
/// IRQ1 (the keyboard): ICW1 to both, vector offsets 0x20 and 0x28, the
/// cascade wiring, 8086 mode, then the masks 0xFD and 0xFF.
pub fn pic_init_sequence() -> (r: [(u16, u8); 10])
    ensures
        r@ == seq![
            (PIC1_COMMAND, 0x11u8),
            (PIC2_COMMAND, 0x11u8),
            (PIC1_DATA, 0x20u8),
            (PIC2_DATA, 0x28u8),
            (PIC1_DATA, 0x04u8),
            (PIC2_DATA, 0x02u8),
            (PIC1_DATA, 0x01u8),
            (PIC2_DATA, 0x01u8),
            (PIC1_DATA, 0xFDu8),
            (PIC2_DATA, 0xFFu8),
        ],
{
    let r = [
        (PIC1_COMMAND, 0x11u8),
        (PIC2_COMMAND, 0x11u8),
        (PIC1_DATA, 0x20u8),
        (PIC2_DATA, 0x28u8),
        (PIC1_DATA, 0x04u8),
        (PIC2_DATA, 0x02u8),
        (PIC1_DATA, 0x01u8),
        (PIC2_DATA, 0x01u8),
        (PIC1_DATA, 0xFDu8),
        (PIC2_DATA, 0xFFu8),
    ];
    assert(r@ =~= seq![
        (PIC1_COMMAND, 0x11u8),
        (PIC2_COMMAND, 0x11u8),
        (PIC1_DATA, 0x20u8),
        (PIC2_DATA, 0x28u8),
        (PIC1_DATA, 0x04u8),
        (PIC2_DATA, 0x02u8),
        (PIC1_DATA, 0x01u8),
        (PIC2_DATA, 0x01u8),
        (PIC1_DATA, 0xFDu8),
        (PIC2_DATA, 0xFFu8),
    ]);
    r
}

/// Default local APIC base address.
pub const LOCAL_APIC_DEFAULT_BASE: u64 = 0xFEE0_0000;

/// Local APIC register offsets.
pub const APIC_REG_TPR: usize = 0x30;
pub const APIC_REG_EOI: usize = 0x40;
pub const APIC_REG_SVR: usize = 0x70;
pub const APIC_REG_LVT_TIMER: usize = 0x100;
pub const APIC_REG_LVT_THERMAL: usize = 0x110;
pub const APIC_REG_LVT_PERF: usize = 0x120;
pub const APIC_REG_LVT_LINT0: usize = 0x130;
pub const APIC_REG_LVT_LINT1: usize = 0x140;
pub const APIC_REG_LVT_ERROR: usize = 0x150;

/// Mask bit of a local vector table entry.
pub const APIC_LVT_MASKED: u32 = 0x10000;

/// The local APIC interrupt controller: whether it is enabled, its MMIO
/// base, and whether its registers have been mapped (after which disable
/// and end-of-interrupt write to them).
pub struct InterruptController {
    pub enabled: bool,
    pub apic_base: u64,
    pub mapped: bool,
}

impl InterruptController {
    /// A disabled controller at the default APIC base.
    pub fn new() -> (r: Self)
        ensures
            !r.enabled,
            !r.mapped,
            r.apic_base == LOCAL_APIC_DEFAULT_BASE,
    {
        InterruptController { enabled: false, apic_base: LOCAL_APIC_DEFAULT_BASE, mapped: false }
    }

    /// Enables the APIC: returns the register writes (offset, value) in
    /// order: software enable with spurious vector 0xFF, task priority 0,
    /// then every local vector table entry masked.
    pub fn enable(&mut self) -> (r: [(usize, u32); 8])
        ensures
            final(self).enabled,
            final(self).mapped,
            final(self).apic_base == old(self).apic_base,
            r@ == seq![
                (APIC_REG_SVR, 0x1FFu32),
                (APIC_REG_TPR, 0u32),
                (APIC_REG_LVT_TIMER, APIC_LVT_MASKED),
                (APIC_REG_LVT_THERMAL, APIC_LVT_MASKED),
                (APIC_REG_LVT_PERF, APIC_LVT_MASKED),
                (APIC_REG_LVT_LINT0, APIC_LVT_MASKED),
                (APIC_REG_LVT_LINT1, APIC_LVT_MASKED),
                (APIC_REG_LVT_ERROR, APIC_LVT_MASKED),
            ],
    {
        self.mapped = true;
        self.enabled = true;
        let r = [
            (APIC_REG_SVR, 0x100u32 | 0xFFu32),
            (APIC_REG_TPR, 0u32),
            (APIC_REG_LVT_TIMER, APIC_LVT_MASKED),
            (APIC_REG_LVT_THERMAL, APIC_LVT_MASKED),
            (APIC_REG_LVT_PERF, APIC_LVT_MASKED),
            (APIC_REG_LVT_LINT0, APIC_LVT_MASKED),
            (APIC_REG_LVT_LINT1, APIC_LVT_MASKED),
            (APIC_REG_LVT_ERROR, APIC_LVT_MASKED),
        ];
        assert(0x100u32 | 0xFFu32 == 0x1FFu32) by (bit_vector);
        assert(r@ =~= seq![
            (APIC_REG_SVR, 0x1FFu32),
            (APIC_REG_TPR, 0u32),
            (APIC_REG_LVT_TIMER, APIC_LVT_MASKED),
            (APIC_REG_LVT_THERMAL, APIC_LVT_MASKED),
            (APIC_REG_LVT_PERF, APIC_LVT_MASKED),
            (APIC_REG_LVT_LINT0, APIC_LVT_MASKED),
            (APIC_REG_LVT_LINT1, APIC_LVT_MASKED),
            (APIC_REG_LVT_ERROR, APIC_LVT_MASKED),
        ]);
        r
    }

    /// Disables the APIC: clears the software enable bit through the
    /// spurious vector register when the registers are mapped.
    pub fn disable(&mut self) -> (r: Option<(usize, u32)>)
        ensures
            !final(self).enabled,
            final(self).mapped == old(self).mapped,
            final(self).apic_base == old(self).apic_base,
            r == (if old(self).mapped { Some((APIC_REG_SVR, 0xFFu32)) } else { None }),
    {
        self.enabled = false;
        if self.mapped {
            Some((APIC_REG_SVR, 0xFF))
        } else {
            None
        }
    }

    /// The end-of-interrupt write, when the registers are mapped.
    pub fn send_eoi(&self) -> (r: Option<(usize, u32)>)
        ensures
            r == (if self.mapped { Some((APIC_REG_EOI, 0u32)) } else { None }),
    {
        if self.mapped {
            Some((APIC_REG_EOI, 0))
        } else {
            None
        }
    }
}

/// The scheduler stub.
pub struct Scheduler {
    pub running: bool,
    pub current_task: Option<u64>,
}

impl Scheduler {
    /// A stopped scheduler with no task.
    pub fn new() -> (r: Self)
        ensures
            !r.running,
            r.current_task is None,
    {
        Scheduler { running: false, current_task: None }
    }

    /// Starts the scheduler.
    pub fn start(&mut self)
        ensures
            final(self).running,
            final(self).current_task == old(self).current_task,
    {
        self.running = true;
    }

    /// One scheduling decision: the stub keeps the current task.
    pub fn schedule(&mut self)
        ensures
            final(self).running == old(self).running,
            final(self).current_task == old(self).current_task,
    {
    }
}

/// A memory map entry as the runtime keeps it (the fields of a UEFI
/// memory descriptor).
#[derive(PartialEq, Eq, Structural, Debug, Clone, Copy)]
pub struct MemoryDescriptor {
    pub physical_start: u64,
    pub number_of_pages: u64,
    pub memory_type: u32,
    pub attribute: u64,
}

/// UEFI page size.
pub const PAGE_SIZE: u64 = 4096;

/// Size of the kernel heap the allocator manages (1 MiB).
pub const KERNEL_HEAP_SIZE: u64 = 0x10_0000;

/// Whether a memory type may host the kernel heap: conventional memory,
/// loader code and data, and boot services code and data.
pub open spec fn heap_usable_type(t: u32) -> bool {
    t == 7 || t == 1 || t == 2 || t == 3 || t == 4
}

/// Whether a descriptor may host the kernel heap: a usable type and more
/// than 256 pages.
pub open spec fn heap_candidate(d: MemoryDescriptor) -> bool {
    heap_usable_type(d.memory_type) && d.number_of_pages > 256
}

/// Whether entry `i` is the region the heap goes to: the first candidate
/// with the most pages.
pub open spec fn is_largest_candidate(map: Seq<MemoryDescriptor>, i: int) -> bool {
    &&& 0 <= i < map.len()
    &&& heap_candidate(map[i])
    &&& forall|j: int|
        0 <= j < map.len() && heap_candidate(#[trigger] map[j]) ==> map[j].number_of_pages <= map[i].number_of_pages
    &&& forall|j: int|
        0 <= j < i && heap_candidate(#[trigger] map[j]) ==> map[j].number_of_pages < map[i].number_of_pages
}

/// Builds the kernel heap allocator from the memory map: 1 MiB at the
/// start of the largest region (the first among equals) of usable memory
/// with more than 256 pages; an error when there is none.
pub fn init_kernel_allocator_from_memory_map(map: &Vec<MemoryDescriptor>) -> (r: Result<
    BumpAllocator,
    &'static str,
>)
    requires
        forall|j: int|
            0 <= j < map@.len() && heap_candidate(#[trigger] map@[j]) ==> map@[j].number_of_pages * PAGE_SIZE
                <= u64::MAX && map@[j].physical_start + KERNEL_HEAP_SIZE <= u64::MAX,
    ensures
        r is Ok <==> exists|i: int| 0 <= i < map@.len() && heap_candidate(#[trigger] map@[i]),
        match r {
            Ok(a) => a.wf() && a.current == a.start && a.end == a.start + KERNEL_HEAP_SIZE && exists|i: int|
                is_largest_candidate(map@, i) && a.start == map@[i].physical_start,
            Err(msg) => msg@ == "No suitable memory region found (need at least 1MB)"@,
        },
{
    let mut best_start: u64 = 0;
    let mut best_size: u64 = 0;
    let ghost mut bi: int = -1;
    let mut i: usize = 0;
    while i < map.len()
        invariant
            0 <= i <= map@.len(),
            forall|j: int|
                0 <= j < map@.len() && heap_candidate(#[trigger] map@[j]) ==> map@[j].number_of_pages
                    * PAGE_SIZE <= u64::MAX && map@[j].physical_start + KERNEL_HEAP_SIZE <= u64::MAX,
            bi == -1 <==> best_size == 0,
            bi == -1 ==> forall|j: int| 0 <= j < i ==> !heap_candidate(#[trigger] map@[j]),
            bi != -1 ==> {
                &&& 0 <= bi < i
                &&& heap_candidate(map@[bi])
                &&& best_start == map@[bi].physical_start
                &&& best_size == map@[bi].number_of_pages * PAGE_SIZE
                &&& forall|j: int|
                    0 <= j < i && heap_candidate(#[trigger] map@[j]) ==> map@[j].number_of_pages
                        <= map@[bi].number_of_pages
                &&& forall|j: int|
                    0 <= j < bi && heap_candidate(#[trigger] map@[j]) ==> map@[j].number_of_pages
                        < map@[bi].number_of_pages
            },
        decreases map@.len() - i,
    {
        let d = map[i];
        let t = d.memory_type;
        let is_usable = t == crate::efi::efi_conventional() || t == crate::efi::efi_loader_code() || t
            == crate::efi::efi_loader_data() || t == crate::efi::efi_boot_services_code() || t
            == crate::efi::efi_boot_services_data();
        if is_usable && d.number_of_pages > 256 {
            assert(heap_candidate(map@[i as int]));
            assert(best_size / PAGE_SIZE == (if bi == -1 { 0 } else { map@[bi].number_of_pages as int }))
                by (nonlinear_arith)
                requires
                    bi == -1 ==> best_size == 0,
                    bi != -1 ==> best_size == map@[bi].number_of_pages * PAGE_SIZE,
            ;
            if d.number_of_pages > best_size / 4096 {
                best_start = d.physical_start;
                best_size = d.number_of_pages * 4096;
                proof {
                    bi = i as int;
                }
            }
        }
        i = i + 1;
    }
    if best_size < KERNEL_HEAP_SIZE {
        proof {
            if bi != -1 {
                assert(best_size >= KERNEL_HEAP_SIZE) by (nonlinear_arith)
                    requires
                        best_size == map@[bi].number_of_pages * PAGE_SIZE,
                        map@[bi].number_of_pages > 256,
                ;
            }
        }
        return Err("No suitable memory region found (need at least 1MB)");
    }
    proof {
        assert(bi != -1);
        assert(is_largest_candidate(map@, bi));
    }
    Ok(BumpAllocator::new(best_start, KERNEL_HEAP_SIZE))
}

/// State of a process.
#[derive(PartialEq, Eq, Structural, Debug, Clone, Copy)]
pub enum ProcessState {
    Ready,
    Running,
    Sleeping,
    Zombie,
}

/// A process: its id, name, state and where its image sits.
pub struct Process {
    pub pid: u64,
    pub name: String,
    pub state: ProcessState,
    pub entry_point: u64,
    pub base_address: u64,
}

/// Where a binary was loaded: its entry point, base and span.
#[derive(PartialEq, Eq, Structural, Debug, Clone, Copy)]
pub struct LoadedBinary {
    pub entry_point: u64,
    pub base_address: u64,
    pub size: u64,
}

/// Kernel runtime state after boot services have exited.
pub struct KernelRuntime {
    /// Memory map captured before exiting boot services.
    pub memory_map: Vec<MemoryDescriptor>,
    /// Map size for later memory map calls.
    pub map_size: usize,
    /// Map key the exit was made with.
    pub map_key: usize,
    /// Whether boot services have been exited.
    pub exited_boot_services: bool,
    /// Next process id to hand out.
    pub next_pid: u64,
    /// Which components are initialized.
    pub init_flags: RuntimeInitFlags,
    /// The runtime's heap allocator, once initialized.
    pub allocator: Option<BumpAllocator>,
    /// The interrupt controller, once initialized.
    pub interrupt_controller: Option<InterruptController>,
    /// The scheduler, once initialized.
    pub scheduler: Option<Scheduler>,
}

/// The first conventional memory region with at least `pages` pages.
pub open spec fn first_free_region(map: Seq<MemoryDescriptor>, pages: u64) -> Option<u64> {
    if exists|i: int| 0 <= i < map.len() && map[i].memory_type == 7 && map[i].number_of_pages >= pages {
        let i = choose|i: int|
            0 <= i < map.len() && map[i].memory_type == 7 && map[i].number_of_pages >= pages && forall|j: int|
                0 <= j < i ==> !((#[trigger] map[j]).memory_type == 7 && map[j].number_of_pages >= pages);
        Some(map[i].physical_start)
    } else {
        None
    }
}

impl KernelRuntime {
    /// The runtime right after boot services were exited: nothing
    /// initialized, the first process id is 1.
    pub fn new(memory_map: Vec<MemoryDescriptor>, map_size: usize, map_key: usize) -> (r: Self)
        ensures
            r.memory_map@ == memory_map@,
            r.map_size == map_size,
            r.map_key == map_key,
            r.exited_boot_services,
            r.next_pid == 1,
            r.init_flags == RuntimeInitFlags::new_spec(),
            r.allocator is None,
            r.interrupt_controller is None,
            r.scheduler is None,
    {
        KernelRuntime {
            memory_map,
            map_size,
            map_key,
            exited_boot_services: true,
            next_pid: 1,
            init_flags: RuntimeInitFlags::new(),
            allocator: None,
            interrupt_controller: None,
            scheduler: None,
        }
    }

    /// Whether the runtime runs without boot services.
    pub fn is_runtime(&self) -> (r: bool)
        ensures
            r == self.exited_boot_services,
    {
        self.exited_boot_services
    }

    /// Start of the first conventional memory region with at least
    /// `pages` pages.
    pub fn find_free_memory(&self, pages: u64) -> (r: Option<u64>)
        ensures
            r == first_free_region(self.memory_map@, pages),
            r matches Some(s) ==> exists|i: int|
                0 <= i < self.memory_map@.len() && (#[trigger] self.memory_map@[i]).physical_start == s,
    {
        let ghost map = self.memory_map@;
        let conventional = crate::efi::efi_conventional();
        let mut i: usize = 0;
        while i < self.memory_map.len()
            invariant
                map == self.memory_map@,
                conventional == 7,
                0 <= i <= map.len(),
                forall|j: int| 0 <= j < i ==> !((#[trigger] map[j]).memory_type == 7 && map[j].number_of_pages >= pages),
            decreases map.len() - i,
        {
            let d = &self.memory_map[i];
            if d.memory_type == conventional && d.number_of_pages >= pages {
                proof {
                    let k = choose|k: int|
                        0 <= k < map.len() && map[k].memory_type == 7 && map[k].number_of_pages >= pages && forall|j: int|
                            0 <= j < k ==> !((#[trigger] map[j]).memory_type == 7 && map[j].number_of_pages >= pages);
                    assert(0 <= k < map.len() && map[k].memory_type == 7 && map[k].number_of_pages >= pages && forall|j: int|
                            0 <= j < k ==> !((#[trigger] map[j]).memory_type == 7 && map[j].number_of_pages >= pages));
                    if k < i {
                        assert(!(map[k].memory_type == 7 && map[k].number_of_pages >= pages));
                    }
                    if k > i {
                        assert(!(map[i as int].memory_type == 7 && map[i as int].number_of_pages >= pages));
                    }
                }
                return Some(d.physical_start);
            }
            i = i + 1;
        }
        None
    }

    /// Sets up the heap allocator: 256 pages (1 MiB) from the first
    /// conventional region that has them.
    pub fn init_allocator(&mut self) -> (r: Result<(), &'static str>)
        requires
            forall|j: int| 0 <= j < old(self).memory_map@.len() ==> (#[trigger] old(self).memory_map@[j]).physical_start
                + KERNEL_HEAP_SIZE <= u64::MAX,
        ensures
            final(self).memory_map@ == old(self).memory_map@,
            final(self).next_pid == old(self).next_pid,
            final(self).exited_boot_services == old(self).exited_boot_services,
            match first_free_region(old(self).memory_map@, 256) {
                Some(start) => r is Ok && final(self).allocator == Some(BumpAllocator {
                    start,
                    end: (start + KERNEL_HEAP_SIZE) as u64,
                    current: start,
                }) && final(self).init_flags == (RuntimeInitFlags {
                    memory_allocator: true,
                    ..old(self).init_flags
                }),
                None => r == Err::<(), &'static str>("No free memory for allocator") && final(self).allocator
                    == old(self).allocator && final(self).init_flags == old(self).init_flags,
            },
    {
        let heap_start = match self.find_free_memory(256) {
            Some(s) => s,
            None => {
                return Err("No free memory for allocator");
            },
        };
        proof {
            let k = choose|k: int|
                0 <= k < self.memory_map@.len() && (#[trigger] self.memory_map@[k]).physical_start == heap_start;
            assert(old(self).memory_map@[k].physical_start + KERNEL_HEAP_SIZE <= u64::MAX);
        }
        self.allocator = Some(BumpAllocator::new(heap_start, 256 * 4096));
        self.init_flags.memory_allocator = true;
        Ok(())
    }

    /// Records the exception handlers as installed, once the IDT was
    /// loaded.
    pub fn init_exception_handlers(&mut self, installed: bool) -> (r: Result<(), &'static str>)
        ensures
            installed ==> r is Ok && final(self).init_flags == (RuntimeInitFlags {
                exception_handlers: true,
                ..old(self).init_flags
            }),
            !installed ==> r == Err::<(), &'static str>("Failed to initialize exception handlers")
                && final(self).init_flags == old(self).init_flags,
            final(self).memory_map@ == old(self).memory_map@,
            final(self).next_pid == old(self).next_pid,
            final(self).allocator == old(self).allocator,
    {
        if !installed {
            return Err("Failed to initialize exception handlers");
        }
        self.init_flags.exception_handlers = true;
        Ok(())
    }

    /// Enables the interrupt controller; returns the APIC register writes
    /// to perform.
    pub fn init_interrupt_controller(&mut self) -> (r: [(usize, u32); 8])
        ensures
            final(self).init_flags == (RuntimeInitFlags { interrupt_controller: true, ..old(self).init_flags }),
            final(self).interrupt_controller matches Some(c) && c.enabled && c.mapped
                && c.apic_base == LOCAL_APIC_DEFAULT_BASE,
            final(self).memory_map@ == old(self).memory_map@,
            final(self).next_pid == old(self).next_pid,
            final(self).allocator == old(self).allocator,
    {
        let mut controller = InterruptController::new();
        let writes = controller.enable();
        self.interrupt_controller = Some(controller);
        self.init_flags.interrupt_controller = true;
        writes
    }

    /// Records the idle loop as set up.
    pub fn init_idle_loop(&mut self)
        ensures
            final(self).init_flags == (RuntimeInitFlags { idle_loop: true, ..old(self).init_flags }),
            final(self).memory_map@ == old(self).memory_map@,
            final(self).next_pid == old(self).next_pid,
            final(self).allocator == old(self).allocator,
    {
        self.init_flags.idle_loop = true;
    }

    /// Starts the scheduler.
    pub fn init_scheduler(&mut self)
        ensures
            final(self).init_flags == (RuntimeInitFlags { scheduler: true, ..old(self).init_flags }),
            final(self).scheduler matches Some(s) && s.running && s.current_task is None,
            final(self).memory_map@ == old(self).memory_map@,
            final(self).next_pid == old(self).next_pid,
            final(self).allocator == old(self).allocator,
    {
        let mut scheduler = Scheduler::new();
        scheduler.start();
        self.scheduler = Some(scheduler);
        self.init_flags.scheduler = true;
    }

    /// Creates a ready process with the next process id.
    pub fn create_process(&mut self, name: &str, entry_point: u64, base_address: u64) -> (r: Process)
        requires
            old(self).next_pid < u64::MAX,
        ensures
            r.pid == old(self).next_pid,
            final(self).next_pid == old(self).next_pid + 1,
            r.name@ == name@,
            r.state == ProcessState::Ready,
            r.entry_point == entry_point,
            r.base_address == base_address,
            final(self).memory_map@ == old(self).memory_map@,
            final(self).map_size == old(self).map_size,
            final(self).map_key == old(self).map_key,
            final(self).exited_boot_services == old(self).exited_boot_services,
            final(self).init_flags == old(self).init_flags,
            final(self).allocator == old(self).allocator,
            final(self).interrupt_controller == old(self).interrupt_controller,
            final(self).scheduler == old(self).scheduler,
    {
        let pid = self.next_pid;
        self.next_pid = self.next_pid + 1;
        Process { pid, name: name.to_owned(), state: ProcessState::Ready, entry_point, base_address }
    }
}

impl RuntimeInitFlags {
    /// The record `new` builds.
    pub open spec fn new_spec() -> RuntimeInitFlags {
        RuntimeInitFlags {
            memory_allocator: false,
            exception_handlers: false,
            interrupt_controller: false,
            idle_loop: false,
            scheduler: false,
        }
    }
}

/// Whether boot services are still reachable: the system table pointer
/// is kept until UEFI services are disabled for good.
pub struct UefiServices {
    pub disabled: bool,
    pub system_table: Option<u64>,
}

impl UefiServices {
    /// Services reachable, no system table recorded yet.
    pub fn new() -> (r: Self)
        ensures
            !r.disabled,
            r.system_table is None,
    {
        UefiServices { disabled: false, system_table: None }
    }

    /// Records the system table.
    pub fn set_uefi_system_table(&mut self, table: u64)
        ensures
            final(self).system_table == Some(table),
            final(self).disabled == old(self).disabled,
    {
        self.system_table = Some(table);
    }

    /// Disables UEFI services for good: the system table is forgotten.
    /// Disabling services that are already disabled changes nothing; it
    /// always succeeds.
    pub fn disable_uefi_services_permanently(&mut self) -> (r: Result<(), &'static str>)
        ensures
            r is Ok,
            final(self).disabled,
            old(self).disabled ==> *final(self) == *old(self),
            !old(self).disabled ==> final(self).system_table is None,
    {
        if self.disabled {
            return Ok(());
        }
        self.system_table = None;
        self.disabled = true;
        Ok(())
    }

    /// Whether UEFI services are disabled.
    pub fn is_uefi_disabled(&self) -> (r: bool)
        ensures
            r == self.disabled,
    {
        self.disabled
    }

    /// The system table, unless services are disabled.
    pub fn get_uefi_system_table(&self) -> (r: Option<u64>)
        ensures
            r == (if self.disabled { None } else { self.system_table }),
    {
        if self.disabled {
            None
        } else {
            self.system_table
        }
    }
}

/// The message shown at the top of the screen on a CPU exception:
/// `EXCEPTION! RIP=` followed by the 16 hex digits of the address.
pub fn exception_message(rip: u64) -> (r: Vec<u8>)
    ensures
        r@ == "EXCEPTION! RIP="@.map_values(|c: char| c as u8) + crate::fmt::hex_spec(rip as nat, 16),
{
    let mut v: Vec<u8> = Vec::new();
    let prefix: [u8; 15] = [69, 88, 67, 69, 80, 84, 73, 79, 78, 33, 32, 82, 73, 80, 61];
    let mut i: usize = 0;
    while i < 15
        invariant
            0 <= i <= 15,
            v@ == prefix@.subrange(0, i as int),
        decreases 15 - i,
    {
        v.push(prefix[i]);
        i = i + 1;
    }
    let digits = crate::fmt::hex_fixed(rip, 16);
    let mut j: usize = 0;
    while j < digits.len()
        invariant
            0 <= j <= digits@.len(),
            v@ == prefix@ + digits@.subrange(0, j as int),
        decreases digits@.len() - j,
    {
        v.push(digits[j]);
        j = j + 1;
    }
    proof {
        reveal_strlit("EXCEPTION! RIP=");
        assert(prefix@ =~= "EXCEPTION! RIP="@.map_values(|c: char| c as u8));
        assert(digits@.subrange(0, digits@.len() as int) =~= digits@);
    }
    v
}

/// Why the boot path found no place for the heap.
#[derive(PartialEq, Eq, Structural, Debug, Clone, Copy)]
pub enum BootHeapError {
    /// No conventional memory in the map.
    NoConventionalMemory,
    /// The largest conventional region is smaller than the 1 MiB heap.
    NotEnoughMemory,
}

/// Whether entry `i` is the region the boot path picks: the first of the
/// largest non-empty conventional-memory (type 7) regions.
pub open spec fn is_largest_conventional(map: Seq<MemoryDescriptor>, i: int) -> bool {
    &&& 0 <= i < map.len()
    &&& map[i].memory_type == 7
    &&& map[i].number_of_pages > 0
    &&& forall|j: int|
        0 <= j < map.len() && (#[trigger] map[j]).memory_type == 7 ==> map[j].number_of_pages
            <= map[i].number_of_pages
    &&& forall|j: int|
        0 <= j < i && (#[trigger] map[j]).memory_type == 7 ==> map[j].number_of_pages < map[i].number_of_pages
}

/// Where the boot path puts the 1 MiB kernel heap: at the start of the
/// largest conventional-memory region (the first among equals), provided
/// it holds at least 1 MiB (256 pages).
pub fn boot_heap_start(map: &Vec<MemoryDescriptor>) -> (r: Result<u64, BootHeapError>)
    ensures
        r == Err::<u64, BootHeapError>(BootHeapError::NoConventionalMemory) <==> forall|j: int|
            0 <= j < map@.len() && (#[trigger] map@[j]).memory_type == 7 ==> map@[j].number_of_pages == 0,
        r == Err::<u64, BootHeapError>(BootHeapError::NotEnoughMemory) <==> exists|i: int|
            is_largest_conventional(map@, i) && map@[i].number_of_pages < 256,
        r matches Ok(start) ==> exists|i: int|
            is_largest_conventional(map@, i) && map@[i].number_of_pages >= 256 && map@[i].physical_start == start,
{
    let mut best: Option<usize> = None;
    let mut best_pages: u64 = 0;
    let mut k: usize = 0;
    while k < map.len()
        invariant
            0 <= k <= map@.len(),
            best is None ==> best_pages == 0,
            best is None ==> forall|j: int|
                0 <= j < k && (#[trigger] map@[j]).memory_type == 7 ==> map@[j].number_of_pages == 0,
            best matches Some(b) ==> {
                &&& b < k
                &&& map@[b as int].memory_type == 7
                &&& map@[b as int].number_of_pages == best_pages
                &&& best_pages > 0
                &&& forall|j: int|
                    0 <= j < k && (#[trigger] map@[j]).memory_type == 7 ==> map@[j].number_of_pages <= best_pages
                &&& forall|j: int|
                    0 <= j < b && (#[trigger] map@[j]).memory_type == 7 ==> map@[j].number_of_pages < best_pages
            },
        decreases map@.len() - k,
    {
        let d = &map[k];
        if d.memory_type == 7 && d.number_of_pages > best_pages {
            best = Some(k);
            best_pages = d.number_of_pages;
        }
        k = k + 1;
    }
    match best {
        None => Err(BootHeapError::NoConventionalMemory),
        Some(b) => {
            assert(is_largest_conventional(map@, b as int));
            proof {
                assert forall|i: int| is_largest_conventional(map@, i) implies map@[i].number_of_pages == best_pages by {
                }
            }
            if best_pages < 256 {
                Err(BootHeapError::NotEnoughMemory)
            } else {
                Ok(map[b].physical_start)
            }
        },
    }
}

} // verus!
