//! VGA text-mode console: an 80x25 grid of character cells (attribute in
//! the high byte, character in the low byte) with a cursor and a colour,
//! and the fixed screens the kernel shows at run time.

use vstd::prelude::*;
use crate::fmt::{dec_spec, hex_spec};

verus! {

/// VGA text buffer base address.
pub const VGA_BUFFER: u64 = 0xB8000;

/// VGA dimensions.
pub const VGA_WIDTH: usize = 80;
pub const VGA_HEIGHT: usize = 25;

/// Number of cells on the screen.
pub const VGA_CELLS: usize = 2000;

/// Default colour: white on black.
pub const COLOR_DEFAULT: u16 = 0x0F00;

/// A blank cell in the default colour.
pub const BLANK: u16 = 0x0F20;

/// VGA I/O ports.
pub const VGA_MISC_WRITE: u16 = 0x3C2;
pub const VGA_CRTC_INDEX: u16 = 0x3D4;
pub const VGA_CRTC_DATA: u16 = 0x3D5;

/// Miscellaneous output value of colour text mode 3.
pub const VGA_MISC_TEXT_MODE: u8 = 0x67;

/// Cursor position and colour.
#[derive(PartialEq, Eq, Structural, Debug, Clone, Copy)]
pub struct VgaConsoleState {
    pub row: usize,
    pub column: usize,
    pub color: u16,
}

impl VgaConsoleState {
    /// Cursor at the top left, default colour.
    pub fn new() -> (r: Self)
        ensures
            r.row == 0,
            r.column == 0,
            r.color == COLOR_DEFAULT,
    {
        VgaConsoleState { row: 0, column: 0, color: COLOR_DEFAULT }
    }
}

/// The console's model: cursor, colour and the screen's cells.
pub struct VgaView {
    pub row: int,
    pub column: int,
    pub color: u16,
    pub cells: Seq<u16>,
}

/// A console: its state and its screen.
pub struct VgaConsole {
    pub state: VgaConsoleState,
    pub cells: Vec<u16>,
}

/// The cell showing character `c` in `color`.
pub open spec fn cell(color: u16, c: char) -> u16 {
    color | (c as u16)
}

/// A screen full of blanks.
pub open spec fn blank_screen() -> Seq<u16> {
    Seq::new(VGA_CELLS as nat, |i: int| BLANK)
}

/// Moves to the start of the next row, scrolling the screen up one row
/// (and blanking the bottom row) past the last one.
pub open spec fn newline(v: VgaView) -> VgaView {
    if v.row + 1 < VGA_HEIGHT {
        VgaView { row: v.row + 1, column: 0, ..v }
    } else {
        VgaView {
            row: VGA_HEIGHT - 1,
            column: 0,
            cells: v.cells.subrange(VGA_WIDTH as int, VGA_CELLS as int) + Seq::new(VGA_WIDTH as nat, |i: int| BLANK),
            ..v
        }
    }
}

/// Writes one character: newline, carriage return, backspace (moves back
/// without erasing, to the end of the previous row at a row start), tab
/// (to the next multiple of 8, a newline past the last column), or a
/// character drawn at the cursor, which then advances and wraps.
pub open spec fn put_char(v: VgaView, c: char) -> VgaView {
    if c == '\n' {
        newline(v)
    } else if c == '\r' {
        VgaView { column: 0, ..v }
    } else if c == '\x08' {
        if v.column > 0 {
            VgaView { column: v.column - 1, ..v }
        } else if v.row > 0 {
            VgaView { row: v.row - 1, column: VGA_WIDTH - 1, ..v }
        } else {
            v
        }
    } else if c == '\t' {
        let col = (v.column / 8 + 1) * 8;
        if col >= VGA_WIDTH {
            newline(VgaView { column: col, ..v })
        } else {
            VgaView { column: col, ..v }
        }
    } else {
        let w = VgaView {
            cells: v.cells.update(v.row * VGA_WIDTH + v.column, cell(v.color, c)),
            column: v.column + 1,
            ..v
        };
        if w.column >= VGA_WIDTH {
            newline(w)
        } else {
            w
        }
    }
}

/// Writes characters one after the other.
pub open spec fn put_str(v: VgaView, s: Seq<char>) -> VgaView
    decreases s.len(),
{
    if s.len() == 0 {
        v
    } else {
        put_str(put_char(v, s[0]), s.drop_first())
    }
}

/// The characters of ASCII bytes.
pub open spec fn ascii_chars(s: Seq<u8>) -> Seq<char> {
    s.map_values(|b: u8| b as char)
}

impl VgaConsole {
    /// The console's model.
    pub open spec fn view(&self) -> VgaView {
        VgaView {
            row: self.state.row as int,
            column: self.state.column as int,
            color: self.state.color,
            cells: self.cells@,
        }
    }

    /// The cursor is on the screen and the screen has all its cells.
    pub open spec fn wf(&self) -> bool {
        self.state.row < VGA_HEIGHT && self.state.column < VGA_WIDTH && self.cells@.len() == VGA_CELLS
    }

    /// A cleared screen with the cursor at the top left in the default
    /// colour.
    pub fn init() -> (r: Self)
        ensures
            r.wf(),
            r.view() == (VgaView { row: 0, column: 0, color: COLOR_DEFAULT, cells: blank_screen() }),
    {
        let mut cells: Vec<u16> = Vec::new();
        let mut i: usize = 0;
        while i < VGA_CELLS
            invariant
                0 <= i <= VGA_CELLS,
                cells@ == Seq::new(i as nat, |j: int| BLANK),
            decreases VGA_CELLS - i,
        {
            cells.push(BLANK);
            i = i + 1;
            assert(cells@ =~= Seq::new(i as nat, |j: int| BLANK));
        }
        VgaConsole { state: VgaConsoleState::new(), cells }
    }

    /// Clears the screen; the cursor stays.
    pub fn clear_screen(&mut self)
        requires
            old(self).wf(),
        ensures
            final(self).wf(),
            final(self).view() == (VgaView { cells: blank_screen(), ..old(self).view() }),
    {
        let mut i: usize = 0;
        while i < VGA_CELLS
            invariant
                self.wf(),
                self.state == old(self).state,
                0 <= i <= VGA_CELLS,
                forall|j: int| 0 <= j < i ==> self.cells@[j] == BLANK,
            decreases VGA_CELLS - i,
        {
            self.cells.set(i, BLANK);
            i = i + 1;
        }
        assert(self.cells@ =~= blank_screen());
    }

    /// Moves to the next row, scrolling at the bottom.
    fn newline(&mut self)
        requires
            old(self).state.row < VGA_HEIGHT,
            old(self).cells@.len() == VGA_CELLS,
        ensures
            final(self).wf(),
            final(self).view() == newline(old(self).view()),
    {
        self.state.column = 0;
        if self.state.row + 1 < VGA_HEIGHT {
            self.state.row = self.state.row + 1;
        } else {
            self.scroll_up();
        }
    }

    /// Scrolls the screen up one row, blanks the bottom row and puts the
    /// cursor at its start.
    pub fn scroll_up(&mut self)
        requires
            old(self).cells@.len() == VGA_CELLS,
        ensures
            final(self).wf(),
            final(self).state.row == VGA_HEIGHT - 1,
            final(self).state.column == 0,
            final(self).state.color == old(self).state.color,
            final(self).cells@ == old(self).cells@.subrange(VGA_WIDTH as int, VGA_CELLS as int) + Seq::new(
                VGA_WIDTH as nat,
                |i: int| BLANK,
            ),
    {
        let ghost c0 = self.cells@;
        let mut i: usize = 0;
        while i < VGA_CELLS - VGA_WIDTH
            invariant
                self.cells@.len() == VGA_CELLS,
                self.state == old(self).state,
                0 <= i <= VGA_CELLS - VGA_WIDTH,
                forall|j: int| 0 <= j < i ==> self.cells@[j] == c0[j + VGA_WIDTH],
                forall|j: int| i <= j < VGA_CELLS ==> self.cells@[j] == c0[j],
            decreases VGA_CELLS - VGA_WIDTH - i,
        {
            let v = self.cells[i + VGA_WIDTH];
            self.cells.set(i, v);
            i = i + 1;
        }
        let mut k: usize = VGA_CELLS - VGA_WIDTH;
        while k < VGA_CELLS
            invariant
                self.cells@.len() == VGA_CELLS,
                self.state == old(self).state,
                VGA_CELLS - VGA_WIDTH <= k <= VGA_CELLS,
                forall|j: int| 0 <= j < VGA_CELLS - VGA_WIDTH ==> self.cells@[j] == c0[j + VGA_WIDTH],
                forall|j: int| VGA_CELLS - VGA_WIDTH <= j < k ==> self.cells@[j] == BLANK,
            decreases VGA_CELLS - k,
        {
            self.cells.set(k, BLANK);
            k = k + 1;
        }
        self.state.row = VGA_HEIGHT - 1;
        self.state.column = 0;
        assert(self.cells@ =~= c0.subrange(VGA_WIDTH as int, VGA_CELLS as int) + Seq::new(
            VGA_WIDTH as nat,
            |i: int| BLANK,
        ));
    }

    /// Writes one character (see `put_char`).
    pub fn putc(&mut self, c: char)
        requires
            old(self).wf(),
        ensures
            final(self).wf(),
            final(self).view() == put_char(old(self).view(), c),
    {
        if c == '\n' {
            self.newline();
        } else if c == '\r' {
            self.state.column = 0;
        } else if c == '\x08' {
            if self.state.column > 0 {
                self.state.column = self.state.column - 1;
            } else if self.state.row > 0 {
                self.state.row = self.state.row - 1;
                self.state.column = VGA_WIDTH - 1;
            }
        } else if c == '\t' {
            let col = self.state.column;
            let next = (col + 8) & !7usize;
            assert(next == (col / 8 + 1) * 8) by (bit_vector)
                requires
                    col < 80,
                    next == ((col + 8) as usize) & !7usize,
            ;
            if next >= VGA_WIDTH {
                self.state.column = 0;
                if self.state.row + 1 < VGA_HEIGHT {
                    self.state.row = self.state.row + 1;
                } else {
                    self.scroll_up();
                }
            } else {
                self.state.column = next;
            }
        } else {
            let offset = self.state.row * VGA_WIDTH + self.state.column;
            let code = c as u32;
            let value = self.state.color | (#[verifier::truncate] (code as u16));
            assert(value == cell(self.state.color, c));
            self.cells.set(offset, value);
            self.state.column = self.state.column + 1;
            if self.state.column >= VGA_WIDTH {
                self.newline();
            }
        }
    }

    /// Writes the characters of a string.
    pub fn puts(&mut self, s: &str)
        requires
            old(self).wf(),
        ensures
            final(self).wf(),
            final(self).view() == put_str(old(self).view(), s@),
    {
        let n = s.unicode_len();
        let mut i: usize = 0;
        assert(s@.subrange(0, n as int) =~= s@);
        while i < n
            invariant
                self.wf(),
                n == s@.len(),
                0 <= i <= n,
                put_str(old(self).view(), s@) == put_str(self.view(), s@.subrange(i as int, n as int)),
            decreases n - i,
        {
            let c = s.get_char(i);
            proof {
                let rest = s@.subrange(i as int, n as int);
                assert(rest.drop_first() =~= s@.subrange(i + 1, n as int));
            }
            self.putc(c);
            i = i + 1;
        }
        proof {
            assert(s@.subrange(n as int, n as int) =~= Seq::<char>::empty());
        }
    }

    /// Writes ASCII bytes as characters.
    pub fn put_bytes(&mut self, s: &[u8])
        requires
            old(self).wf(),
        ensures
            final(self).wf(),
            final(self).view() == put_str(old(self).view(), ascii_chars(s@)),
    {
        let n = s.len();
        let mut i: usize = 0;
        assert(ascii_chars(s@).subrange(0, n as int) =~= ascii_chars(s@));
        while i < n
            invariant
                self.wf(),
                n == s@.len(),
                0 <= i <= n,
                put_str(old(self).view(), ascii_chars(s@)) == put_str(self.view(), ascii_chars(s@).subrange(i as int, n as int)),
            decreases n - i,
        {
            proof {
                let rest = ascii_chars(s@).subrange(i as int, n as int);
                assert(rest.drop_first() =~= ascii_chars(s@).subrange(i + 1, n as int));
                assert(rest[0] == s@[i as int] as char);
            }
            self.putc(s[i] as char);
            i = i + 1;
        }
        proof {
            assert(ascii_chars(s@).subrange(n as int, n as int) =~= Seq::<char>::empty());
        }
    }

    /// Sets the colour: background in bits 12-15, foreground in bits 8-11.
    pub fn set_color(&mut self, foreground: u8, background: u8)
        requires
            foreground < 16,
            background < 16,
        ensures
            final(self).state.color == background * 0x1000 + foreground * 0x100,
            final(self).state.row == old(self).state.row,
            final(self).state.column == old(self).state.column,
            final(self).cells@ == old(self).cells@,
    {
        let b = background as u16;
        let f = foreground as u16;
        assert((b << 12u16) | (f << 8u16) == b * 0x1000 + f * 0x100) by (bit_vector)
            requires
                b < 16,
                f < 16,
        ;
        self.state.color = (b << 12u16) | (f << 8u16);
    }

    /// The cursor position (row, column).
    pub fn get_cursor(&self) -> (r: (usize, usize))
        ensures
            r == (self.state.row, self.state.column),
    {
        (self.state.row, self.state.column)
    }

    /// Moves the cursor, when the position is on the screen.
    pub fn set_cursor(&mut self, row: usize, column: usize)
        ensures
            (row < VGA_HEIGHT && column < VGA_WIDTH) ==> final(self).state.row == row && final(self).state.column
                == column,
            !(row < VGA_HEIGHT && column < VGA_WIDTH) ==> final(self).state == old(self).state,
            final(self).state.color == old(self).state.color,
            final(self).cells@ == old(self).cells@,
    {
        if row < VGA_HEIGHT && column < VGA_WIDTH {
            self.state.row = row;
            self.state.column = column;
        }
    }

    /// Writes a value as `0x` and 16 hex digits.
    pub fn put_hex(&mut self, value: u64)
        requires
            old(self).wf(),
        ensures
            final(self).wf(),
            final(self).view() == put_str(old(self).view(), ascii_chars(seq![48u8, 120u8] + hex_spec(value as nat, 16))),
    {
        let mut digits: Vec<u8> = Vec::new();
        digits.push(48);
        digits.push(120);
        let hex = crate::fmt::hex_fixed(value, 16);
        let mut i: usize = 0;
        while i < hex.len()
            invariant
                0 <= i <= hex@.len(),
                digits@ == seq![48u8, 120u8] + hex@.subrange(0, i as int),
            decreases hex@.len() - i,
        {
            digits.push(hex[i]);
            i = i + 1;
        }
        assert(hex@.subrange(0, hex@.len() as int) =~= hex@);
        self.put_bytes(digits.as_slice());
    }

    /// Writes a value in decimal.
    pub fn put_dec(&mut self, value: u64)
        requires
            old(self).wf(),
        ensures
            final(self).wf(),
            final(self).view() == put_str(old(self).view(), ascii_chars(dec_spec(value as nat))),
    {
        let digits = crate::fmt::dec_digits(value);
        self.put_bytes(digits.as_slice());
    }
}

/// "RUSTUX KERNEL - RUNTIME MODE - VGA ACTIVE"
pub const TITLE: [u8; 41] = [
    82, 85, 83, 84, 85, 88, 32, 75, 69, 82, 78, 69, 76, 32, 45, 32,
    82, 85, 78, 84, 73, 77, 69, 32, 77, 79, 68, 69, 32, 45, 32, 86,
    71, 65, 32, 65, 67, 84, 73, 86, 69,
];

/// "Status: VGA Text Mode Initialized"
pub const STATUS_MSG: [u8; 33] = [
    83, 116, 97, 116, 117, 115, 58, 32, 86, 71, 65, 32, 84, 101, 120, 116,
    32, 77, 111, 100, 101, 32, 73, 110, 105, 116, 105, 97, 108, 105, 122, 101,
    100,
];

/// "[ ] IDT loaded - Waiting for check"
pub const IDT_MSG: [u8; 34] = [
    91, 32, 93, 32, 73, 68, 84, 32, 108, 111, 97, 100, 101, 100, 32, 45,
    32, 87, 97, 105, 116, 105, 110, 103, 32, 102, 111, 114, 32, 99, 104, 101,
    99, 107,
];

/// "[ ] PIC configured - Waiting for check"
pub const PIC_MSG: [u8; 38] = [
    91, 32, 93, 32, 80, 73, 67, 32, 99, 111, 110, 102, 105, 103, 117, 114,
    101, 100, 32, 45, 32, 87, 97, 105, 116, 105, 110, 103, 32, 102, 111, 114,
    32, 99, 104, 101, 99, 107,
];

/// "[ ] IRQ1 handler - Waiting for check"
pub const IRQ_MSG: [u8; 36] = [
    91, 32, 93, 32, 73, 82, 81, 49, 32, 104, 97, 110, 100, 108, 101, 114,
    32, 45, 32, 87, 97, 105, 116, 105, 110, 103, 32, 102, 111, 114, 32, 99,
    104, 101, 99, 107,
];

/// "[ ] Interrupts enabled - Waiting for STI"
pub const INT_MSG: [u8; 40] = [
    91, 32, 93, 32, 73, 110, 116, 101, 114, 114, 117, 112, 116, 115, 32, 101,
    110, 97, 98, 108, 101, 100, 32, 45, 32, 87, 97, 105, 116, 105, 110, 103,
    32, 102, 111, 114, 32, 83, 84, 73,
];

/// "TESTING: Press any key to trigger IRQ1 interrupt"
pub const INSTR: [u8; 48] = [
    84, 69, 83, 84, 73, 78, 71, 58, 32, 80, 114, 101, 115, 115, 32, 97,
    110, 121, 32, 107, 101, 121, 32, 116, 111, 32, 116, 114, 105, 103, 103, 101,
    114, 32, 73, 82, 81, 49, 32, 105, 110, 116, 101, 114, 114, 117, 112, 116,
];

/// "         If IRQ1 works, character will appear below"
pub const INSTR2: [u8; 51] = [
    32, 32, 32, 32, 32, 32, 32, 32, 32, 73, 102, 32, 73, 82, 81, 49,
    32, 119, 111, 114, 107, 115, 44, 32, 99, 104, 97, 114, 97, 99, 116, 101,
    114, 32, 119, 105, 108, 108, 32, 97, 112, 112, 101, 97, 114, 32, 98, 101,
    108, 111, 119,
];

/// "IRQ1 Key Output (last key pressed):"
pub const OUTPUT_LABEL: [u8; 35] = [
    73, 82, 81, 49, 32, 75, 101, 121, 32, 79, 117, 116, 112, 117, 116, 32,
    40, 108, 97, 115, 116, 32, 107, 101, 121, 32, 112, 114, 101, 115, 115, 101,
    100, 41, 58,
];

/// "System Status: KERNEL ALIVE - Runtime Mode Active"
pub const INFO1: [u8; 49] = [
    83, 121, 115, 116, 101, 109, 32, 83, 116, 97, 116, 117, 115, 58, 32, 75,
    69, 82, 78, 69, 76, 32, 65, 76, 73, 86, 69, 32, 45, 32, 82, 117,
    110, 116, 105, 109, 101, 32, 77, 111, 100, 101, 32, 65, 99, 116, 105, 118,
    101,
];

/// "CPU Mode:     Protected Mode, Interrupts Disabled"
pub const INFO2: [u8; 49] = [
    67, 80, 85, 32, 77, 111, 100, 101, 58, 32, 32, 32, 32, 32, 80, 114,
    111, 116, 101, 99, 116, 101, 100, 32, 77, 111, 100, 101, 44, 32, 73, 110,
    116, 101, 114, 114, 117, 112, 116, 115, 32, 68, 105, 115, 97, 98, 108, 101,
    100,
];

/// "Next Step:    Waiting for interrupt verification..."
pub const INFO3: [u8; 51] = [
    78, 101, 120, 116, 32, 83, 116, 101, 112, 58, 32, 32, 32, 32, 87, 97,
    105, 116, 105, 110, 103, 32, 102, 111, 114, 32, 105, 110, 116, 101, 114, 114,
    117, 112, 116, 32, 118, 101, 114, 105, 102, 105, 99, 97, 116, 105, 111, 110,
    46, 46, 46,
];

/// "Last key: "
pub const LAST_KEY: [u8; 10] = [
    76, 97, 115, 116, 32, 107, 101, 121, 58, 32,
];

/// The screen with `text` written from cell `start` in attribute `attr`.
pub open spec fn text_over(cells: Seq<u16>, start: int, attr: u16, text: Seq<u8>) -> Seq<u16> {
    Seq::new(
        cells.len(),
        |i: int|
            if start <= i < start + text.len() {
                attr | (text[i - start] as u16)
            } else {
                cells[i]
            },
    )
}

/// The screen with row `row` filled with `value`.
pub open spec fn row_filled(cells: Seq<u16>, row: int, value: u16) -> Seq<u16> {
    Seq::new(cells.len(), |i: int| if row * VGA_WIDTH <= i < (row + 1) * VGA_WIDTH { value } else { cells[i] })
}

/// Writes `text` from cell `start` in attribute `attr`.
pub fn write_text(cells: &mut Vec<u16>, start: usize, attr: u16, text: &[u8])
    requires
        start + text@.len() <= old(cells).len(),
    ensures
        final(cells)@ == text_over(old(cells)@, start as int, attr, text@),
{
    let ghost c0 = cells@;
    let mut i: usize = 0;
    while i < text.len()
        invariant
            cells@.len() == c0.len(),
            start + text@.len() <= cells.len(),
            0 <= i <= text@.len(),
            forall|j: int|
                0 <= j < c0.len() ==> cells@[j] == (if start <= j < start + i {
                    attr | (text@[j - start] as u16)
                } else {
                    c0[j]
                }),
        decreases text@.len() - i,
    {
        cells.set(start + i, attr | (text[i] as u16));
        i = i + 1;
    }
    assert(cells@ =~= text_over(c0, start as int, attr, text@));
}

/// Fills row `row` with `value`.
pub fn fill_row(cells: &mut Vec<u16>, row: usize, value: u16)
    requires
        row < VGA_HEIGHT,
        old(cells)@.len() == VGA_CELLS,
    ensures
        final(cells)@ == row_filled(old(cells)@, row as int, value),
{
    let ghost c0 = cells@;
    let base = row * VGA_WIDTH;
    let mut i: usize = 0;
    while i < VGA_WIDTH
        invariant
            cells@.len() == VGA_CELLS,
            base == row * VGA_WIDTH,
            row < VGA_HEIGHT,
            0 <= i <= VGA_WIDTH,
            forall|j: int|
                0 <= j < VGA_CELLS ==> cells@[j] == (if base <= j < base + i { value } else { c0[j] }),
        decreases VGA_WIDTH - i,
    {
        cells.set(base + i, value);
        i = i + 1;
    }
    assert(cells@ =~= row_filled(c0, row as int, value));
}

/// The screen the kernel shows when it enters run time: white on blue,
/// the title, a separator, the initialization checklist, the test
/// instructions, the key output area with its block cursor, and the
/// system status lines.
pub open spec fn runtime_banner_spec() -> Seq<u16> {
    let s0 = Seq::new(VGA_CELLS as nat, |i: int| 0x1F20u16);
    let s1 = text_over(s0, 0, 0x1E00, TITLE@);
    let s2 = row_filled(s1, 2, 0x1F3D);
    let s3 = text_over(s2, 4 * 80int, 0x1A00, STATUS_MSG@);
    let s4 = text_over(s3, 6 * 80int, 0x1F00, IDT_MSG@);
    let s5 = text_over(s4, 7 * 80int, 0x1F00, PIC_MSG@);
    let s6 = text_over(s5, 8 * 80int, 0x1F00, IRQ_MSG@);
    let s7 = text_over(s6, 9 * 80int, 0x1F00, INT_MSG@);
    let s8 = text_over(s7, 11 * 80int, 0x1E00, INSTR@);
    let s9 = text_over(s8, 12 * 80int, 0x1E00, INSTR2@);
    let s10 = row_filled(s9, 14, 0x1F2D);
    let s11 = text_over(s10, 15 * 80int, 0x1A00, OUTPUT_LABEL@);
    let s12 = row_filled(s11, 17, 0x1F20).update(17 * 80int + 40, 0x9FDB);
    let s13 = text_over(s12, 20 * 80int, 0x0F00, INFO1@);
    let s14 = text_over(s13, 21 * 80int, 0x0F00, INFO2@);
    text_over(s14, 22 * 80int, 0x0F00, INFO3@)
}

/// Draws the run-time banner over a screen.
pub fn display_runtime_banner(cells: &mut Vec<u16>)
    requires
        old(cells)@.len() == VGA_CELLS,
    ensures
        final(cells)@ == runtime_banner_spec(),
{
    let mut i: usize = 0;
    while i < VGA_CELLS
        invariant
            cells@.len() == VGA_CELLS,
            0 <= i <= VGA_CELLS,
            forall|j: int| 0 <= j < i ==> cells@[j] == 0x1F20u16,
        decreases VGA_CELLS - i,
    {
        cells.set(i, 0x1F20);
        i = i + 1;
    }
    assert(cells@ =~= Seq::new(VGA_CELLS as nat, |i: int| 0x1F20u16));
    write_text(cells, 0, 0x1E00, &TITLE);
    fill_row(cells, 2, 0x1F3D);
    write_text(cells, 4 * VGA_WIDTH, 0x1A00, &STATUS_MSG);
    write_text(cells, 6 * VGA_WIDTH, 0x1F00, &IDT_MSG);
    write_text(cells, 7 * VGA_WIDTH, 0x1F00, &PIC_MSG);
    write_text(cells, 8 * VGA_WIDTH, 0x1F00, &IRQ_MSG);
    write_text(cells, 9 * VGA_WIDTH, 0x1F00, &INT_MSG);
    write_text(cells, 11 * VGA_WIDTH, 0x1E00, &INSTR);
    write_text(cells, 12 * VGA_WIDTH, 0x1E00, &INSTR2);
    fill_row(cells, 14, 0x1F2D);
    write_text(cells, 15 * VGA_WIDTH, 0x1A00, &OUTPUT_LABEL);
    fill_row(cells, 17, 0x1F20);
    cells.set(17 * VGA_WIDTH + 40, 0x9FDB);
    write_text(cells, 20 * VGA_WIDTH, 0x0F00, &INFO1);
    write_text(cells, 21 * VGA_WIDTH, 0x0F00, &INFO2);
    write_text(cells, 22 * VGA_WIDTH, 0x0F00, &INFO3);
}

/// Marks a checklist row done: a bright green `[OK]` at its start, when
/// the row is on the screen.
pub fn mark_checkpoint(cells: &mut Vec<u16>, row: usize)
    requires
        old(cells)@.len() == VGA_CELLS,
    ensures
        row < VGA_HEIGHT ==> final(cells)@ == text_over(old(cells)@, row * VGA_WIDTH, 0x9A00, seq![91u8, 79u8, 75u8, 93u8]),
        row >= VGA_HEIGHT ==> final(cells)@ == old(cells)@,
{
    if row < VGA_HEIGHT {
        let ok: [u8; 4] = [91, 79, 75, 93];
        assert(ok@ =~= seq![91u8, 79u8, 75u8, 93u8]);
        write_text(cells, row * VGA_WIDTH, 0x9A00, &ok);
    }
}

/// Shows the last key pressed on row 16: the row blanked white on blue,
/// `Last key: ` in yellow, then the key and a space in bright yellow.
pub fn write_key_output(cells: &mut Vec<u16>, c: char)
    requires
        old(cells)@.len() == VGA_CELLS,
    ensures
        final(cells)@ == text_over(row_filled(old(cells)@, 16, 0x1F20), 16 * 80int, 0x1E00, LAST_KEY@).update(
            16 * 80int + 11,
            cell(0x9E00, c),
        ).update(16 * 80int + 12, 0x9E20),
{
    fill_row(cells, 16, 0x1F20);
    write_text(cells, 16 * VGA_WIDTH, 0x1E00, &LAST_KEY);
    let code = c as u32;
    let key = 0x9E00 | (#[verifier::truncate] (code as u16));
    assert(key == cell(0x9E00, c));
    cells.set(16 * VGA_WIDTH + 11, key);
    cells.set(16 * VGA_WIDTH + 12, 0x9E20);
}

/// The port write and screen contents that force colour text mode 3: the
/// miscellaneous output value, then every cell blank.
pub fn force_text_mode(cells: &mut Vec<u16>) -> (r: (u16, u8))
    requires
        old(cells)@.len() == VGA_CELLS,
    ensures
        r == (VGA_MISC_WRITE, VGA_MISC_TEXT_MODE),
        final(cells)@ == blank_screen(),
{
    let mut i: usize = 0;
    while i < VGA_CELLS
        invariant
            cells@.len() == VGA_CELLS,
            0 <= i <= VGA_CELLS,
            forall|j: int| 0 <= j < i ==> cells@[j] == BLANK,
        decreases VGA_CELLS - i,
    {
        cells.set(i, BLANK);
        i = i + 1;
    }
    assert(cells@ =~= blank_screen());
    (VGA_MISC_WRITE, VGA_MISC_TEXT_MODE)
}

} // verus!
