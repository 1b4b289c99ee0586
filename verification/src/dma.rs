//! The xHCI DMA structures: the command ring (producer side), the event
//! ring (consumer side), the event ring segment table and the device
//! context base address array, with the cycle-bit protocol that hands
//! ring slots between software and the controller.

use vstd::prelude::*;
use crate::trb::{EventTrb, NormalTrb, TRB_CYCLE_BIT, TRB_RING_SIZE};
use crate::usb::UsbError;

verus! {

/// Ring position arithmetic: the slot after `index`.
pub open spec fn next_index(index: u32) -> u32 {
    ((index + 1) % (TRB_RING_SIZE as int)) as u32
}

/// Producer cycle state after advancing to `next`: it flips when the
/// ring wraps to slot 0.
pub open spec fn cycle_after(cycle: u32, next: u32) -> u32 {
    if next == 0 {
        (1 - cycle) as u32
    } else {
        cycle
    }
}

/// The TRB as it is stored in a slot: the caller's TRB with the cycle bit
/// of the producer or-ed into its control word.
pub open spec fn stamped(trb: NormalTrb, cycle: u32) -> NormalTrb {
    NormalTrb { data_ptr: trb.data_ptr, status: trb.status, control: trb.control | cycle }
}

/// One enqueue on a ring state (slots, enqueue index, dequeue index,
/// producer cycle): `None` when the ring is full, else the new slots,
/// enqueue index and cycle state.
pub open spec fn ring_push(trbs: Seq<NormalTrb>, enq: u32, deq: u32, cyc: u32, trb: NormalTrb) -> Option<
    (Seq<NormalTrb>, u32, u32),
> {
    if next_index(enq) == deq {
        None
    } else {
        Some((trbs.update(enq as int, stamped(trb, cyc)), next_index(enq), cycle_after(cyc, next_index(enq))))
    }
}

/// Enqueues TRBs one after another, stopping at the first that does not
/// fit: the final slots, enqueue index, cycle state, and whether all fit.
pub open spec fn ring_push_seq(trbs: Seq<NormalTrb>, enq: u32, deq: u32, cyc: u32, items: Seq<NormalTrb>) -> (
    Seq<NormalTrb>,
    u32,
    u32,
    bool,
)
    decreases items.len(),
{
    if items.len() == 0 {
        (trbs, enq, cyc, true)
    } else {
        match ring_push(trbs, enq, deq, cyc, items[0]) {
            None => (trbs, enq, cyc, false),
            Some(s) => ring_push_seq(s.0, s.1, deq, s.2, items.drop_first()),
        }
    }
}

/// Command ring: 16 TRB slots, the enqueue and dequeue indices and the
/// producer cycle state.
pub struct CommandRingStruct {
    pub trbs: Vec<NormalTrb>,
    pub enqueue: u32,
    pub dequeue: u32,
    pub cycle_state: u32,
}

/// Well-formedness of a TRB ring's indices and cycle state.
pub open spec fn ring_wf(len: nat, enqueue: u32, dequeue: u32, cycle: u32) -> bool {
    &&& len == TRB_RING_SIZE
    &&& enqueue < TRB_RING_SIZE
    &&& dequeue < TRB_RING_SIZE
    &&& cycle < 2
}

/// A fresh ring of zeroed TRBs: empty, producer cycle 1.
pub fn zeroed_trbs() -> (r: Vec<NormalTrb>)
    ensures
        r.len() == TRB_RING_SIZE,
        forall|i: int| 0 <= i < r.len() ==> r@[i] == (NormalTrb { data_ptr: 0, status: 0, control: 0 }),
{
    let mut v: Vec<NormalTrb> = Vec::new();
    let mut i: usize = 0;
    while i < TRB_RING_SIZE
        invariant
            i <= TRB_RING_SIZE,
            v.len() == i,
            forall|j: int| 0 <= j < v.len() ==> v@[j] == (NormalTrb { data_ptr: 0, status: 0, control: 0 }),
        decreases TRB_RING_SIZE - i,
    {
        v.push(NormalTrb { data_ptr: 0, status: 0, control: 0 });
        i = i + 1;
    }
    v
}

/// Places a TRB in slot `enqueue` of `trbs`, stamped with the cycle bit,
/// unless the next slot is the dequeue slot (ring full). Returns the new
/// enqueue index and cycle state.
pub(crate) fn ring_put(trbs: &mut Vec<NormalTrb>, enqueue: u32, dequeue: u32, cycle: u32, trb: &NormalTrb) -> (r:
    Result<(u32, u32), UsbError>)
    requires
        ring_wf(old(trbs).len() as nat, enqueue, dequeue, cycle),
    ensures
        next_index(enqueue) == dequeue ==> r == Err::<(u32, u32), UsbError>(UsbError::Timeout)
            && final(trbs)@ == old(trbs)@,
        next_index(enqueue) != dequeue ==> r == Ok::<(u32, u32), UsbError>(
            (next_index(enqueue), cycle_after(cycle, next_index(enqueue))),
        ) && final(trbs)@ == old(trbs)@.update(enqueue as int, stamped(*trb, cycle)),
{
    let next = (enqueue + 1) % (TRB_RING_SIZE as u32);
    if next == dequeue {
        return Err(UsbError::Timeout);
    }
    assert(cycle & 1 == cycle) by (bit_vector)
        requires
            cycle < 2,
    ;
    trbs.set(
        enqueue as usize,
        NormalTrb { data_ptr: trb.data_ptr, status: trb.status, control: trb.control | (cycle & 1) },
    );
    let mut new_cycle = cycle;
    if next == 0 {
        new_cycle = cycle ^ 1;
        assert(cycle ^ 1 == 1 - cycle) by (bit_vector)
            requires
                cycle < 2,
        ;
    }
    Ok((next, new_cycle))
}

impl CommandRingStruct {
    /// An empty command ring with producer cycle 1.
    pub fn new() -> (r: Self)
        ensures
            r.wf(),
            r.enqueue == 0,
            r.dequeue == 0,
            r.cycle_state == 1,
    {
        CommandRingStruct { trbs: zeroed_trbs(), enqueue: 0, dequeue: 0, cycle_state: 1 }
    }

    /// Well-formedness of the ring.
    pub open spec fn wf(&self) -> bool {
        ring_wf(self.trbs.len() as nat, self.enqueue, self.dequeue, self.cycle_state)
    }
}

/// Enqueues a command TRB: it goes to the enqueue slot with the producer
/// cycle bit, the enqueue index advances and the cycle state flips on
/// wrap; when the ring is full nothing changes and the result is
/// `Err(Timeout)`.
pub fn command_ring_enqueue(ring: &mut CommandRingStruct, trb: &NormalTrb) -> (r: Result<(), UsbError>)
    requires
        old(ring).wf(),
    ensures
        final(ring).wf(),
        final(ring).dequeue == old(ring).dequeue,
        next_index(old(ring).enqueue) == old(ring).dequeue ==> r == Err::<(), UsbError>(
            UsbError::Timeout,
        ) && final(ring).trbs@ == old(ring).trbs@ && final(ring).enqueue == old(ring).enqueue
            && final(ring).cycle_state == old(ring).cycle_state,
        next_index(old(ring).enqueue) != old(ring).dequeue ==> {
            &&& r is Ok
            &&& final(ring).trbs@ == old(ring).trbs@.update(
                old(ring).enqueue as int,
                stamped(*trb, old(ring).cycle_state),
            )
            &&& final(ring).enqueue == next_index(old(ring).enqueue)
            &&& final(ring).cycle_state == cycle_after(
                old(ring).cycle_state,
                next_index(old(ring).enqueue),
            )
        },
{
    let res = ring_put(&mut ring.trbs, ring.enqueue, ring.dequeue, ring.cycle_state, trb);
    match res {
        Ok((next, cycle)) => {
            ring.enqueue = next;
            ring.cycle_state = cycle;
            Ok(())
        },
        Err(e) => Err(e),
    }
}

/// Command ring enqueue index.
pub fn command_ring_enqueue_idx(ring: &CommandRingStruct) -> (r: u32)
    ensures
        r == ring.enqueue,
{
    ring.enqueue
}

/// Command ring producer cycle state.
pub fn command_ring_cycle_value(ring: &CommandRingStruct) -> (r: u32)
    ensures
        r == ring.cycle_state,
{
    ring.cycle_state
}

/// Event ring: 16 event TRB slots written by the controller, the dequeue
/// index and the consumer cycle state.
pub struct EventRingStruct {
    pub trbs: Vec<EventTrb>,
    pub dequeue: u32,
    pub cycle_state: u32,
}

impl EventRingStruct {
    /// An event ring of zeroed slots, consumer cycle 1.
    pub fn new() -> (r: Self)
        ensures
            r.wf(),
            r.dequeue == 0,
            r.cycle_state == 1,
    {
        let mut v: Vec<EventTrb> = Vec::new();
        let mut i: usize = 0;
        while i < TRB_RING_SIZE
            invariant
                i <= TRB_RING_SIZE,
                v.len() == i,
            decreases TRB_RING_SIZE - i,
        {
            v.push(EventTrb { trb_ptr: 0, status: 0, control: 0 });
            i = i + 1;
        }
        EventRingStruct { trbs: v, dequeue: 0, cycle_state: 1 }
    }

    /// Well-formedness of the ring.
    pub open spec fn wf(&self) -> bool {
        ring_wf(self.trbs.len() as nat, 0, self.dequeue, self.cycle_state)
    }

    /// Records what the controller wrote into a slot (the ring's memory
    /// image).
    pub fn record_event(&mut self, index: usize, trb: EventTrb)
        requires
            old(self).wf(),
            index < TRB_RING_SIZE,
        ensures
            final(self).wf(),
            final(self).trbs@ == old(self).trbs@.update(index as int, trb),
            final(self).dequeue == old(self).dequeue,
            final(self).cycle_state == old(self).cycle_state,
    {
        self.trbs.set(index, trb);
    }
}

/// Dequeues the event at the dequeue slot when the controller owns it no
/// more (its cycle bit equals the consumer cycle state): the index
/// advances and the cycle state flips on wrap. Otherwise nothing changes
/// and the result is `None`.
pub fn event_ring_dequeue(ring: &mut EventRingStruct) -> (r: Option<EventTrb>)
    requires
        old(ring).wf(),
    ensures
        final(ring).wf(),
        final(ring).trbs@ == old(ring).trbs@,
        ({
            let t = old(ring).trbs@[old(ring).dequeue as int];
            if t.control % 2 != old(ring).cycle_state {
                r is None && final(ring).dequeue == old(ring).dequeue && final(ring).cycle_state
                    == old(ring).cycle_state
            } else {
                r == Some(t) && final(ring).dequeue == next_index(old(ring).dequeue)
                    && final(ring).cycle_state == cycle_after(
                    old(ring).cycle_state,
                    next_index(old(ring).dequeue),
                )
            }
        }),
{
    let index = ring.dequeue as usize;
    let cycle = ring.cycle_state;
    let trb = ring.trbs[index];
    let control = trb.control;
    let trb_cycle = control & TRB_CYCLE_BIT;
    proof {
        crate::bits::lemma_u32_fields();
    }
    assert(control & 1 == control % 2);
    assert(cycle & 1 == cycle) by (bit_vector)
        requires
            cycle < 2,
    ;
    if trb_cycle != (cycle & 1) {
        return None;
    }
    let next = (ring.dequeue + 1) % (TRB_RING_SIZE as u32);
    ring.dequeue = next;
    if next == 0 {
        ring.cycle_state = cycle ^ 1;
        assert(cycle ^ 1 == 1 - cycle) by (bit_vector)
            requires
                cycle < 2,
        ;
    }
    Some(trb)
}

/// Address of the event ring slot at the dequeue index (slots are 16
/// bytes).
pub fn event_ring_dequeue_ptr(ring: &EventRingStruct, base: u64) -> (r: u64)
    requires
        ring.wf(),
        base + 16 * TRB_RING_SIZE <= u64::MAX,
    ensures
        r == base + ring.dequeue * 16,
{
    base + (ring.dequeue as u64) * 16
}

/// Event ring dequeue index and cycle state.
pub fn event_ring_state(ring: &EventRingStruct) -> (r: (u32, u32))
    ensures
        r == (ring.dequeue, ring.cycle_state),
{
    (ring.dequeue, ring.cycle_state)
}

/// First slot of the event ring.
pub fn event_ring_first_trb(ring: &EventRingStruct) -> (r: EventTrb)
    requires
        ring.wf(),
    ensures
        r == ring.trbs@[0],
{
    ring.trbs[0]
}

/// Event ring segment table entry.
#[derive(PartialEq, Eq, Structural, Debug, Clone, Copy)]
pub struct ErstEntry {
    pub segment_base: u64,
    pub segment_size: u32,
    pub reserved: u32,
}

/// Event ring segment table (one segment).
pub struct ErstStruct {
    pub entries: [ErstEntry; 1],
}

impl ErstStruct {
    /// A table whose only segment has the ring size and no base yet.
    pub fn new() -> (r: Self)
        ensures
            r.entries@[0] == (ErstEntry { segment_base: 0, segment_size: 16, reserved: 0 }),
    {
        ErstStruct { entries: [ErstEntry { segment_base: 0, segment_size: TRB_RING_SIZE as u32, reserved: 0 }] }
    }
}

/// Points the only segment at the event ring.
pub fn erst_init(erst: &mut ErstStruct, event_ring_base: u64)
    ensures
        final(erst).entries@[0] == (ErstEntry {
            segment_base: event_ring_base,
            segment_size: 16,
            reserved: old(erst).entries@[0].reserved,
        }),
{
    let reserved = erst.entries[0].reserved;
    erst.entries[0] = ErstEntry { segment_base: event_ring_base, segment_size: TRB_RING_SIZE as u32, reserved };
}

/// Device context base address array (256 entries).
pub struct DcbaaStruct {
    pub data: Vec<u64>,
}

impl DcbaaStruct {
    /// An array of 256 null pointers.
    pub fn new() -> (r: Self)
        ensures
            r.data@.len() == 256,
            forall|i: int| 0 <= i < 256 ==> r.data@[i] == 0,
    {
        let mut v: Vec<u64> = Vec::new();
        let mut i: usize = 0;
        while i < 256
            invariant
                i <= 256,
                v.len() == i,
                forall|j: int| 0 <= j < i ==> v@[j] == 0,
            decreases 256 - i,
        {
            v.push(0);
            i = i + 1;
        }
        DcbaaStruct { data: v }
    }
}

/// Whether an address meets the 64-byte alignment xHCI requires.
pub fn is_dma_aligned(addr: u64) -> (r: bool)
    ensures
        r == (addr % 64 == 0),
{
    proof {
        crate::bits::lemma_u64_fields();
    }
    assert((addr & 0x3F == 0) == (addr % 64 == 0));
    addr & 0x3F == 0
}

/// Whether the command ring base is 64-byte aligned.
pub fn command_ring_aligned(base: u64) -> (r: bool)
    ensures
        r == (base % 64 == 0),
{
    is_dma_aligned(base)
}

/// Whether the event ring base is 64-byte aligned.
pub fn event_ring_aligned(base: u64) -> (r: bool)
    ensures
        r == (base % 64 == 0),
{
    is_dma_aligned(base)
}

/// Whether the segment table base is 64-byte aligned.
pub fn erst_aligned(base: u64) -> (r: bool)
    ensures
        r == (base % 64 == 0),
{
    is_dma_aligned(base)
}

/// Whether the device context base address array is 64-byte aligned.
pub fn dcbaa_aligned(base: u64) -> (r: bool)
    ensures
        r == (base % 64 == 0),
{
    is_dma_aligned(base)
}

} // verus!
