//! Keyboard input: the circular input buffer shared by the PS/2 and USB
//! backends, and the keyboard backend selection.

use vstd::prelude::*;

verus! {

/// Capacity of the circular input buffer (one slot stays free).
pub const INPUT_BUFFER_SIZE: usize = 256;

/// Circular byte buffer filled by the keyboard interrupt path and drained
/// by readers.
pub struct InputBuffer {
    data: Vec<u8>,
    read_pos: usize,
    write_pos: usize,
}

/// Number of bytes held by a buffer with the given positions.
pub open spec fn ring_len(read_pos: int, write_pos: int) -> int {
    if write_pos >= read_pos {
        write_pos - read_pos
    } else {
        INPUT_BUFFER_SIZE - read_pos + write_pos
    }
}

impl InputBuffer {
    /// Well-formedness: the storage has its fixed size and both positions
    /// index into it.
    pub closed spec fn wf(&self) -> bool {
        &&& self.data.len() == INPUT_BUFFER_SIZE
        &&& self.read_pos < INPUT_BUFFER_SIZE
        &&& self.write_pos < INPUT_BUFFER_SIZE
    }

    /// The bytes waiting to be read, oldest first.
    pub closed spec fn view(&self) -> Seq<u8> {
        Seq::new(
            ring_len(self.read_pos as int, self.write_pos as int) as nat,
            |i: int| self.data@[(self.read_pos + i) % (INPUT_BUFFER_SIZE as int)],
        )
    }

    /// Creates an empty buffer.
    pub fn new() -> (r: Self)
        ensures
            r.wf(),
            r@ == Seq::<u8>::empty(),
    {
        let mut data: Vec<u8> = Vec::new();
        let mut i: usize = 0;
        while i < INPUT_BUFFER_SIZE
            invariant
                i <= INPUT_BUFFER_SIZE,
                data.len() == i,
            decreases INPUT_BUFFER_SIZE - i,
        {
            data.push(0);
            i = i + 1;
        }
        let r = InputBuffer { data, read_pos: 0, write_pos: 0 };
        assert(r@ =~= Seq::<u8>::empty());
        r
    }

    /// Appends a byte; refuses it (returning `false`) when the buffer
    /// already holds `INPUT_BUFFER_SIZE - 1` bytes.
    pub fn write(&mut self, byte: u8) -> (r: bool)
        requires
            old(self).wf(),
        ensures
            final(self).wf(),
            r == (old(self)@.len() < INPUT_BUFFER_SIZE - 1),
            r ==> final(self)@ == old(self)@.push(byte),
            !r ==> final(self)@ == old(self)@,
    {
        let next_pos = (self.write_pos + 1) % INPUT_BUFFER_SIZE;
        if next_pos == self.read_pos {
            return false;
        }
        let ghost old_view = self@;
        let ghost rp = self.read_pos as int;
        let ghost wp = self.write_pos as int;
        let ghost old_data = self.data@;
        let wpos = self.write_pos;
        self.data.set(wpos, byte);
        self.write_pos = next_pos;
        proof {
            let n = ring_len(rp, wp);
            assert((rp + n) % 256 == wp);
            assert(self@ =~= old_view.push(byte)) by {
                assert forall|i: int| 0 <= i < n implies self@[i] == old_view[i] by {
                    assert((rp + i) % 256 != wp);
                }
            }
        }
        true
    }

    /// Removes and returns the oldest byte, or `None` when empty.
    pub fn read(&mut self) -> (r: Option<u8>)
        requires
            old(self).wf(),
        ensures
            final(self).wf(),
            old(self)@.len() == 0 ==> r is None && final(self)@ == old(self)@,
            old(self)@.len() > 0 ==> r == Some(old(self)@[0]) && final(self)@ == old(self)@.drop_first(),
    {
        if self.read_pos == self.write_pos {
            return None;
        }
        let ghost old_view = self@;
        let byte = self.data[self.read_pos];
        self.read_pos = (self.read_pos + 1) % INPUT_BUFFER_SIZE;
        proof {
            assert(self@ =~= old_view.drop_first());
        }
        Some(byte)
    }

    /// Whether at least one byte is waiting.
    pub fn has_data(&self) -> (r: bool)
        requires
            self.wf(),
        ensures
            r == (self@.len() > 0),
    {
        self.read_pos != self.write_pos
    }

    /// The buffer never holds more than `INPUT_BUFFER_SIZE - 1` bytes: one
    /// slot always stays free to tell a full buffer from an empty one.
    pub proof fn lemma_capacity(&self)
        requires
            self.wf(),
        ensures
            self@.len() < INPUT_BUFFER_SIZE,
    {
    }

    /// Bytes leave in the order they came: appending a byte behind a
    /// non-empty queue leaves the next byte to read and the rest of the
    /// queue before the new byte unchanged, and a byte appended to an
    /// empty queue is the next one read.
    pub proof fn lemma_fifo(queued: Seq<u8>, byte: u8)
        ensures
            queued.len() == 0 ==> queued.push(byte)[0] == byte && queued.push(byte).drop_first() == queued,
            queued.len() > 0 ==> queued.push(byte)[0] == queued[0] && queued.push(byte).drop_first()
                == queued.drop_first().push(byte),
    {
        assert(queued.len() == 0 ==> queued.push(byte).drop_first() =~= queued);
        assert(queued.len() > 0 ==> queued.push(byte).drop_first() =~= queued.drop_first().push(byte));
    }

    /// Number of bytes waiting.
    pub fn available(&self) -> (r: usize)
        requires
            self.wf(),
        ensures
            r == self@.len(),
    {
        if self.write_pos >= self.read_pos {
            self.write_pos - self.read_pos
        } else {
            INPUT_BUFFER_SIZE - self.read_pos + self.write_pos
        }
    }
}


/// PS/2 controller data port.
pub const KEYBOARD_DATA_PORT: u16 = 0x60;

/// PS/2 controller command/status port.
pub const KEYBOARD_COMMAND_PORT: u16 = 0x64;

/// US QWERTY scan code set 1 to ASCII (unshifted); 0 marks keys that
/// produce no character.
pub const SCAN_CODE_TO_ASCII: [u8; 128] = [
    0, 0, 49, 50, 51, 52, 53, 54, 55, 56, 57, 48, 45, 61, 8, 9,
    113, 119, 101, 114, 116, 121, 117, 105, 111, 112, 91, 93, 10, 0, 97, 115,
    100, 102, 103, 104, 106, 107, 108, 59, 39, 96, 0, 92, 122, 120, 99, 118,
    98, 110, 109, 44, 46, 47, 0, 0, 0, 32, 0, 0, 0, 0, 0, 0,
    0, 0, 0, 0, 0, 0, 0, 0, 0, 0, 0, 0, 0, 0, 0, 0,
    0, 0, 0, 0, 0, 0, 0, 0, 0, 0, 0, 0, 0, 0, 0, 0,
    0, 0, 0, 0, 0, 0, 0, 0, 0, 0, 0, 0, 0, 0, 0, 0,
    0, 0, 0, 0, 0, 0, 0, 0, 0, 0, 0, 0, 0, 0, 0, 0,
];

/// Make code of the left shift key.
pub const SCAN_LEFT_SHIFT: u8 = 0x2A;

/// Make code of the right shift key.
pub const SCAN_RIGHT_SHIFT: u8 = 0x36;

/// Whether a make code is one of the two shift keys.
pub open spec fn is_shift_code(code: u8) -> bool {
    code == SCAN_LEFT_SHIFT || code == SCAN_RIGHT_SHIFT
}

/// The character a key press produces: the table entry, upper-cased for
/// letters while shift is held; 0 for keys without a character.
pub open spec fn press_ascii(shift: bool, code: u8) -> u8
    recommends
        code < 128,
{
    let a = SCAN_CODE_TO_ASCII@[code as int];
    if shift && 97 <= a <= 122 {
        (a - 32) as u8
    } else {
        a
    }
}

/// One scan code's effect on the shift state and the queued characters:
/// a break code (bit 7) of a shift key releases shift; a make code of a
/// shift key holds it; any other make code with a character queues it
/// while there is room.
pub open spec fn ps2_step(shift: bool, q: Seq<u8>, code: u8) -> (bool, Seq<u8>) {
    if code >= 0x80 {
        (if is_shift_code((code - 0x80) as u8) { false } else { shift }, q)
    } else if is_shift_code(code) {
        (true, q)
    } else {
        let a = press_ascii(shift, code);
        (shift, if a != 0 && q.len() < INPUT_BUFFER_SIZE - 1 { q.push(a) } else { q })
    }
}

/// Both shift keys work, left (make 0x2A, break 0xAA) and right (make
/// 0x36, break 0xB6): pressing either holds shift and queues nothing,
/// releasing either lets go of it; a letter key pressed while shift is
/// held queues its upper-case letter, and pressed without shift its
/// lower-case letter (while the queue has room).
pub proof fn lemma_ps2_shift(shift: bool, q: Seq<u8>, code: u8)
    ensures
        (code == 0x2A || code == 0x36) ==> ps2_step(shift, q, code) == (true, q),
        (code == 0xAA || code == 0xB6) ==> ps2_step(shift, q, code) == (false, q),
        code < 0x80 && 97 <= SCAN_CODE_TO_ASCII@[code as int] <= 122 && q.len() < 255 ==> ps2_step(shift, q, code)
            == (shift, q.push(if shift { (SCAN_CODE_TO_ASCII@[code as int] - 32) as u8 } else {
            SCAN_CODE_TO_ASCII@[code as int]
        })),
{
    if code < 0x80 && 97 <= SCAN_CODE_TO_ASCII@[code as int] <= 122 {
        assert(code != 0x2A && code != 0x36) by {
            assert(SCAN_CODE_TO_ASCII@[0x2A] == 0);
            assert(SCAN_CODE_TO_ASCII@[0x36] == 0);
        }
    }
}

/// Pressing either shift key and then a letter queues the upper-case
/// letter, whatever the shift state was.
pub proof fn lemma_shift_then_letter(shift: bool, q: Seq<u8>, s: u8, c: u8)
    requires
        s == 0x2A || s == 0x36,
        c < 0x80,
        97 <= SCAN_CODE_TO_ASCII@[c as int] <= 122,
        q.len() < 255,
    ensures
        ({
            let (sh1, q1) = ps2_step(shift, q, s);
            ps2_step(sh1, q1, c) == (true, q.push((SCAN_CODE_TO_ASCII@[c as int] - 32) as u8))
        }),
{
    lemma_ps2_shift(shift, q, s);
    lemma_ps2_shift(true, q, c);
}

/// Scan code set 1 decoder: tracks the shift state between scan codes.
pub struct Ps2Decoder {
    pub shift_pressed: bool,
}

impl Ps2Decoder {
    /// A decoder with shift released.
    pub fn new() -> (r: Self)
        ensures
            !r.shift_pressed,
    {
        Ps2Decoder { shift_pressed: false }
    }

    /// Processes one scan code: a break code (bit 7 set) of a shift key
    /// releases shift, a make code of a shift key presses it, and any other
    /// make code whose character is not 0 is appended to `buffer`.
    pub fn handle_scancode(&mut self, buffer: &mut InputBuffer, scan_code: u8)
        requires
            old(buffer).wf(),
        ensures
            final(buffer).wf(),
            (final(self).shift_pressed, final(buffer)@) == ps2_step(old(self).shift_pressed, old(buffer)@, scan_code),
            scan_code >= 0x80 ==> {
                &&& final(self).shift_pressed == (if is_shift_code((scan_code - 0x80) as u8) {
                    false
                } else {
                    old(self).shift_pressed
                })
                &&& final(buffer)@ == old(buffer)@
            },
            scan_code < 0x80 && is_shift_code(scan_code) ==> {
                &&& final(self).shift_pressed
                &&& final(buffer)@ == old(buffer)@
            },
            scan_code < 0x80 && !is_shift_code(scan_code) ==> {
                let a = press_ascii(old(self).shift_pressed, scan_code);
                &&& final(self).shift_pressed == old(self).shift_pressed
                &&& final(buffer)@ == (if a != 0 && old(buffer)@.len() < INPUT_BUFFER_SIZE - 1 {
                    old(buffer)@.push(a)
                } else {
                    old(buffer)@
                })
            },
    {
        let released = scan_code & 0x80 != 0;
        proof {
            crate::bits::lemma_u8_flags();
        }
        assert((scan_code & 0x80 != 0) == (scan_code >= 0x80));
        if released {
            let make_code = scan_code & 0x7F;
            assert(scan_code >= 0x80 ==> make_code == scan_code - 0x80);
            if make_code == SCAN_LEFT_SHIFT || make_code == SCAN_RIGHT_SHIFT {
                self.shift_pressed = false;
            }
        } else {
            if scan_code == SCAN_LEFT_SHIFT || scan_code == SCAN_RIGHT_SHIFT {
                self.shift_pressed = true;
                return;
            }
            let mut ascii = SCAN_CODE_TO_ASCII[scan_code as usize];
            if self.shift_pressed && ascii >= 97 && ascii <= 122 {
                ascii = ascii - 32;
            }
            if ascii != 0 {
                buffer.write(ascii);
            }
        }
    }
}

/// What the PS/2 interrupt drain loop does with one status byte.
#[derive(PartialEq, Eq, Structural, Debug, Clone, Copy)]
pub enum Ps2StatusAction {
    /// Output buffer empty: stop draining.
    Done,
    /// A mouse byte or an errored byte: read it and throw it away.
    Discard,
    /// A keyboard scan code is waiting: read it and decode it.
    ScanCode,
}

/// Decides from the controller status what the drain loop does next:
/// bit 0 clear ends it, bit 5 (mouse data) or bits 6-7 (timeout, parity)
/// discard the byte, anything else is a scan code.
pub fn ps2_status_action(status: u8) -> (r: Ps2StatusAction)
    ensures
        r == (if status % 2 == 0 {
            Ps2StatusAction::Done
        } else if (status / 32) % 2 == 1 || status >= 64 {
            Ps2StatusAction::Discard
        } else {
            Ps2StatusAction::ScanCode
        }),
{
    proof {
        crate::bits::lemma_u8_flags();
    }
    assert((status & 0x01 == 0) == (status % 2 == 0));
    assert((status & 0x20 != 0) == ((status / 32) % 2 == 1));
    assert((status & 0xC0 != 0) == (status >= 64));
    if status & 0x01 == 0 {
        Ps2StatusAction::Done
    } else if status & 0x20 != 0 {
        Ps2StatusAction::Discard
    } else if status & 0xC0 != 0 {
        Ps2StatusAction::Discard
    } else {
        Ps2StatusAction::ScanCode
    }
}

/// Whether the 8042 controller answered: a status of 0xFF means nothing
/// is decoding the port.
pub fn controller_present(status: u8) -> (r: bool)
    ensures
        r == (status != 0xFF),
{
    status != 0xFF
}

/// PS/2 characters arrive through the interrupt path only, so polling
/// the PS/2 backend yields nothing.
pub fn ps2_read_char() -> (r: Option<char>)
    ensures
        r is None,
{
    None
}

/// Appends a byte for the interrupt path; `false` when the buffer is full.
pub fn write_to_buffer(buffer: &mut InputBuffer, byte: u8) -> (r: bool)
    requires
        old(buffer).wf(),
    ensures
        final(buffer).wf(),
        r == (old(buffer)@.len() < INPUT_BUFFER_SIZE - 1),
        r ==> final(buffer)@ == old(buffer)@.push(byte),
        !r ==> final(buffer)@ == old(buffer)@,
{
    buffer.write(byte)
}

/// Reads one character from the buffer.
pub fn read_char(buffer: &mut InputBuffer) -> (r: Option<char>)
    requires
        old(buffer).wf(),
    ensures
        final(buffer).wf(),
        old(buffer)@.len() == 0 ==> r is None && final(buffer)@ == old(buffer)@,
        old(buffer)@.len() > 0 ==> r == Some(old(buffer)@[0] as char) && final(buffer)@
            == old(buffer)@.drop_first(),
{
    match buffer.read() {
        Some(b) => Some(b as char),
        None => None,
    }
}

/// Discards everything waiting in the buffer.
pub fn flush(buffer: &mut InputBuffer)
    requires
        old(buffer).wf(),
    ensures
        final(buffer).wf(),
        final(buffer)@ == Seq::<u8>::empty(),
{
    loop
        invariant
            buffer.wf(),
        decreases buffer@.len(),
    {
        match buffer.read() {
            Some(_) => {},
            None => {
                assert(buffer@ =~= Seq::<u8>::empty());
                return;
            },
        }
    }
}

/// Keyboard interrupt count reported to the shell diagnostics (not
/// tracked by this kernel).
pub fn get_irq_count() -> (r: u8)
    ensures
        r == 0,
{
    0
}

/// Keyboard backend type.
#[derive(PartialEq, Eq, Structural, Debug, Clone, Copy)]
pub enum KeyboardBackend {
    Absent,
    Ps2,
    Usb,
}

/// Chooses the backend at initialisation: USB when its initialisation
/// succeeded, USB too when a device was seen on an xHCI port even though
/// enumeration failed, else PS/2 when the controller answers, else none.
/// The string is the status tag printed on the console.
pub fn select_backend(usb_init_ok: bool, xhci_device_seen: bool, ps2_present: bool) -> (r: (
    KeyboardBackend,
    &'static str,
))
    ensures
        r.0 == (if usb_init_ok || xhci_device_seen {
            KeyboardBackend::Usb
        } else if ps2_present {
            KeyboardBackend::Ps2
        } else {
            KeyboardBackend::Absent
        }),
        usb_init_ok ==> r.1@ == "[USB KBD] "@,
        !usb_init_ok && xhci_device_seen ==> r.1@ == "[USB DETECTED - ENUM PENDING] "@,
        !usb_init_ok && !xhci_device_seen && ps2_present ==> r.1@ == "[PS/2] "@,
        !usb_init_ok && !xhci_device_seen && !ps2_present ==> r.1@ == "[NO KEYBOARD] "@,
{
    if usb_init_ok {
        (KeyboardBackend::Usb, "[USB KBD] ")
    } else if xhci_device_seen {
        (KeyboardBackend::Usb, "[USB DETECTED - ENUM PENDING] ")
    } else if ps2_present {
        (KeyboardBackend::Ps2, "[PS/2] ")
    } else {
        (KeyboardBackend::Absent, "[NO KEYBOARD] ")
    }
}

/// Reads one character from the active backend; `usb_char` is what a
/// poll of the USB keyboard produced.
pub fn backend_read_char(backend: KeyboardBackend, usb_char: Option<char>) -> (r: Option<char>)
    ensures
        r == (match backend {
            KeyboardBackend::Usb => usb_char,
            _ => None,
        }),
{
    match backend {
        KeyboardBackend::Ps2 => ps2_read_char(),
        KeyboardBackend::Usb => usb_char,
        KeyboardBackend::Absent => None,
    }
}

/// Outcome of feeding one key to the line editor.
#[derive(PartialEq, Eq, Structural, Debug, Clone, Copy)]
pub enum LineStep {
    /// The line goes on with this many characters.
    Continue(usize),
    /// Enter ended the line with this many characters.
    Done(usize),
}

/// Line editing of `read_line`: Enter ends the line, backspace drops the
/// last character, any other byte is stored while there is room and
/// ignored once the buffer is full.
pub fn line_edit_step(buffer: &mut Vec<u8>, count: usize, key: u8) -> (r: LineStep)
    requires
        count <= old(buffer).len(),
    ensures
        final(buffer).len() == old(buffer).len(),
        key == 10 ==> r == LineStep::Done(count) && final(buffer)@ == old(buffer)@,
        key == 8 ==> r == LineStep::Continue(if count > 0 { (count - 1) as usize } else { 0 })
            && final(buffer)@ == old(buffer)@,
        key != 10 && key != 8 && count < old(buffer).len() ==> r == LineStep::Continue(
            (count + 1) as usize,
        ) && final(buffer)@ == old(buffer)@.update(count as int, key),
        key != 10 && key != 8 && count >= old(buffer).len() ==> r == LineStep::Continue(count)
            && final(buffer)@ == old(buffer)@,
{
    if key == 10 {
        LineStep::Done(count)
    } else if key == 8 {
        if count > 0 {
            LineStep::Continue(count - 1)
        } else {
            LineStep::Continue(0)
        }
    } else if count < buffer.len() {
        buffer.set(count, key);
        LineStep::Continue(count + 1)
    } else {
        LineStep::Continue(count)
    }
}

/// Whether the display-only warning of a keyboard-less shell must be
/// printed now; it is printed once.
pub fn no_keyboard_warning(shown: &mut bool) -> (print: bool)
    ensures
        print == !*old(shown),
        *final(shown),
{
    if !*shown {
        *shown = true;
        true
    } else {
        false
    }
}

} // verus!
