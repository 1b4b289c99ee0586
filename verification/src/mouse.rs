//! PS/2 mouse: assembling 3-byte packets from the interrupt's bytes,
//! tracking position and buttons, and queueing packets for readers.
//!
//! Packet: flags `[Y_ovf, X_ovf, Y_sign, X_sign, 1, M, R, L]`, then the X
//! and Y movement as signed bytes.

use vstd::prelude::*;

verus! {

/// Mouse data and command ports (shared with the keyboard).
pub const MOUSE_DATA_PORT: u16 = 0x60;
pub const MOUSE_COMMAND_PORT: u16 = 0x64;

/// Bytes in a packet.
pub const MOUSE_PACKET_SIZE: usize = 3;

/// Packets the queue holds.
pub const MOUSE_BUFFER_SIZE: usize = 64;

/// Reset command and the answer of a mouse that reset.
pub const MOUSE_CMD_RESET: u8 = 0xFF;
pub const MOUSE_RESET_ACK: u8 = 0xAA;

/// Command that enables data reporting.
pub const MOUSE_CMD_ENABLE: u8 = 0xF4;

/// Cursor position and buttons.
#[derive(PartialEq, Eq, Structural, Debug, Clone, Copy)]
pub struct MouseState {
    pub x: i16,
    pub y: i16,
    pub left_button: bool,
    pub right_button: bool,
    pub middle_button: bool,
}

/// A value held to `-32767..=32767`.
pub open spec fn clamp(v: int) -> int {
    if v < -32767 {
        -32767
    } else if v > 32767 {
        32767
    } else {
        v
    }
}

/// A byte read as a signed movement.
pub open spec fn signed(b: u8) -> int {
    if b >= 128 {
        b - 256
    } else {
        b as int
    }
}

/// Whether a bit of a byte is set.
pub open spec fn bit(v: u8, mask: u8) -> bool {
    v & mask != 0
}

/// The state after a complete packet: X moves unless either overflow
/// flag is set, Y moves (inverted) unless either sign flag is set, each
/// computed without overflow and held to `-32767..=32767`; the buttons
/// are the packet's.
pub open spec fn apply_packet(s: MouseState, p: Seq<u8>) -> MouseState {
    let flags = p[0];
    MouseState {
        x: if !bit(flags, 0x40) && !bit(flags, 0x80) { clamp(s.x + signed(p[1])) as i16 } else { s.x },
        y: if !bit(flags, 0x10) && !bit(flags, 0x20) { clamp(s.y - signed(p[2])) as i16 } else { s.y },
        left_button: bit(flags, 0x01),
        right_button: bit(flags, 0x02),
        middle_button: bit(flags, 0x04),
    }
}

/// The mouse driver: state, queued packets (three bytes each), and the
/// packet being received.
pub struct MouseDriver {
    pub state: MouseState,
    pub packets: Vec<u8>,
    pub current: [u8; 3],
    pub byte_count: usize,
}

impl MouseDriver {
    /// The driver's invariant: whole packets queued, at most 64, and fewer
    /// than three bytes of the next one received.
    pub open spec fn wf(&self) -> bool {
        &&& self.packets@.len() % 3 == 0
        &&& self.packets@.len() <= MOUSE_BUFFER_SIZE * MOUSE_PACKET_SIZE
        &&& self.byte_count < MOUSE_PACKET_SIZE
    }

    /// A driver at rest: cursor at the origin, no buttons, nothing queued.
    pub fn new() -> (r: Self)
        ensures
            r.wf(),
            r.state == (MouseState { x: 0, y: 0, left_button: false, right_button: false, middle_button: false }),
            r.packets@.len() == 0,
            r.byte_count == 0,
    {
        MouseDriver {
            state: MouseState { x: 0, y: 0, left_button: false, right_button: false, middle_button: false },
            packets: Vec::new(),
            current: [0, 0, 0],
            byte_count: 0,
        }
    }

    /// Whether a mouse answered its reset.
    pub fn reset_acknowledged(ack: u8) -> (r: bool)
        ensures
            r == (ack == MOUSE_RESET_ACK),
    {
        ack == MOUSE_RESET_ACK
    }

    /// One byte from the interrupt: stored in the packet being received;
    /// the third byte completes it, which updates the state and queues the
    /// packet (dropped when 64 are queued).
    pub fn handle_byte(&mut self, byte: u8)
        requires
            old(self).wf(),
        ensures
            final(self).wf(),
            old(self).byte_count < 2 ==> {
                &&& final(self).byte_count == old(self).byte_count + 1
                &&& final(self).current@ == old(self).current@.update(old(self).byte_count as int, byte)
                &&& final(self).state == old(self).state
                &&& final(self).packets@ == old(self).packets@
            },
            old(self).byte_count == 2 ==> {
                let p = seq![old(self).current[0], old(self).current[1], byte];
                &&& final(self).byte_count == 0
                &&& final(self).current@ == p
                &&& final(self).state == apply_packet(old(self).state, p)
                &&& final(self).packets@ == (if old(self).packets@.len() < MOUSE_BUFFER_SIZE * MOUSE_PACKET_SIZE {
                    old(self).packets@ + p
                } else {
                    old(self).packets@
                })
            },
    {
        let idx = self.byte_count;
        self.current[idx] = byte;
        self.byte_count = idx + 1;
        if self.byte_count == MOUSE_PACKET_SIZE {
            self.byte_count = 0;
            let flags = self.current[0];
            let b1 = self.current[1];
            let b2 = self.current[2];
            let dx = b1 as i8;
            let dy = b2 as i8;
            assert(dx as int == (if b1 >= 128 { b1 - 256 } else { b1 as int })) by (bit_vector)
                requires
                    dx == b1 as i8,
            ;
            assert(dy as int == (if b2 >= 128 { b2 - 256 } else { b2 as int })) by (bit_vector)
                requires
                    dy == b2 as i8,
            ;
            if flags & 0x40 == 0 && flags & 0x80 == 0 {
                let nx = self.state.x as i32 + dx as i32;
                self.state.x = if nx < -32767 {
                    -32767
                } else if nx > 32767 {
                    32767
                } else {
                    nx as i16
                };
            }
            if flags & 0x10 == 0 && flags & 0x20 == 0 {
                let ny = self.state.y as i32 - dy as i32;
                self.state.y = if ny < -32767 {
                    -32767
                } else if ny > 32767 {
                    32767
                } else {
                    ny as i16
                };
            }
            self.state.left_button = (flags & 0x01) != 0;
            self.state.right_button = (flags & 0x02) != 0;
            self.state.middle_button = (flags & 0x04) != 0;
            if self.packets.len() < MOUSE_BUFFER_SIZE * MOUSE_PACKET_SIZE {
                let ghost before = self.packets@;
                self.packets.push(self.current[0]);
                self.packets.push(self.current[1]);
                self.packets.push(self.current[2]);
                assert(self.packets@ =~= before + self.current@);
            }
            assert(self.current@ =~= seq![old(self).current[0], old(self).current[1], byte]);
        }
    }

    /// The state.
    pub fn get_state(&self) -> (r: MouseState)
        ensures
            r == self.state,
    {
        self.state
    }

    /// Takes the queued packets.
    pub fn drain_packets(&mut self) -> (r: Vec<u8>)
        requires
            old(self).wf(),
        ensures
            final(self).wf(),
            r@ == old(self).packets@,
            final(self).packets@.len() == 0,
            final(self).state == old(self).state,
            final(self).byte_count == old(self).byte_count,
            final(self).current == old(self).current,
    {
        let mut out: Vec<u8> = Vec::new();
        std::mem::swap(&mut out, &mut self.packets);
        out
    }

    /// Whether packets are queued.
    pub fn has_moved(&self) -> (r: bool)
        ensures
            r == (self.packets@.len() > 0),
    {
        self.packets.len() > 0
    }

    /// The cursor position.
    pub fn get_position(&self) -> (r: (i16, i16))
        ensures
            r == (self.state.x, self.state.y),
    {
        (self.state.x, self.state.y)
    }

    /// The buttons: left, middle, right.
    pub fn get_buttons(&self) -> (r: (bool, bool, bool))
        ensures
            r == (self.state.left_button, self.state.middle_button, self.state.right_button),
    {
        (self.state.left_button, self.state.middle_button, self.state.right_button)
    }
}

/// The cursor stays within `-32767..=32767` on both axes: any packet
/// applied to a position within that range gives a position within it
/// (a move past either end is clamped).
pub proof fn lemma_packet_keeps_range(s: MouseState, p: Seq<u8>)
    requires
        p.len() == 3,
        -32767 <= s.x <= 32767,
        -32767 <= s.y <= 32767,
    ensures
        -32767 <= apply_packet(s, p).x <= 32767,
        -32767 <= apply_packet(s, p).y <= 32767,
{
}

} // verus!
