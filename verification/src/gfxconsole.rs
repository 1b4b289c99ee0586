//! Text console on a graphics surface: cursor, colours and the small
//! escape-sequence machine (`ESC [ n D` moves the cursor left), with the
//! drawing the console asks of its surface.

use vstd::prelude::*;
use vstd::string::StringSliceAdditionalSpecFns;

verus! {

/// Default text colour (white).
pub const TEXT_COLOR: u32 = 0xFFFFFFFF;

/// Default background colour (black).
pub const BACK_COLOR: u32 = 0xFF000000;

/// Crash text colour (white).
pub const CRASH_TEXT_COLOR: u32 = 0xFFFFFFFF;

/// Crash background colour.
pub const CRASH_BACK_COLOR: u32 = 0xFFE000E0;

/// Where the console is in its input.
#[derive(PartialEq, Eq, Structural, Debug, Clone, Copy)]
pub enum ConsoleState {
    Normal,
    Escape,
}

/// Drawing the console asks of its surface.
#[derive(PartialEq, Eq, Structural, Debug, Clone, Copy)]
pub enum GfxOp {
    /// Draw glyph `c` with its top left corner at pixel (`px`, `py`).
    DrawChar { c: u8, px: u32, py: u32, front: u32, back: u32 },
    /// Move the surface up by one text row of `char_height` pixels and
    /// fill the freed bottom with `back`.
    ScrollUp { char_height: u32, back: u32 },
    /// Fill the whole surface with `color`.
    Fill { color: u32 },
}

/// A graphics console: the surface size and glyph size once set up, the
/// text grid they give, the cursor, the colours and the escape state.
#[derive(PartialEq, Eq, Debug, Clone, Copy)]
pub struct GfxConsole {
    /// Surface width and height in pixels.
    pub surface: Option<(u32, u32)>,
    /// Glyph width and height in pixels.
    pub font: Option<(u32, u32)>,
    pub rows: u32,
    pub columns: u32,
    pub extray: u32,
    pub x: u32,
    pub y: u32,
    pub front_color: u32,
    pub back_color: u32,
    pub state: ConsoleState,
    pub escape_param: u32,
}

/// Whether `c` is an ASCII digit.
pub open spec fn is_digit(c: char) -> bool {
    '0' <= c <= '9'
}

/// Whether drawing at the cursor and advancing it stays within `u32`.
pub open spec fn advance_arith_ok(g: GfxConsole) -> bool {
    &&& g.x + 1 <= u32::MAX
    &&& (g.columns > 0 && g.x + 1 >= g.columns ==> g.y + 1 <= u32::MAX)
    &&& (g.surface is Some ==> (g.font matches Some((fw, fh)) ==> g.x * fw <= u32::MAX && g.y * fh <= u32::MAX))
}

/// Whether putting `c` keeps the console's arithmetic within `u32`.
pub open spec fn put_arith_ok(g: GfxConsole, c: char) -> bool {
    match g.state {
        ConsoleState::Normal => if c == '\n' {
            g.y + 1 <= u32::MAX
        } else if c == '\t' {
            g.x + 8 <= u32::MAX
        } else if c == '\r' || c == '\x08' || c == '\x1b' {
            true
        } else {
            advance_arith_ok(g)
        },
        ConsoleState::Escape => if is_digit(c) {
            g.escape_param * 10 + 9 <= u32::MAX
        } else if c == 'D' || c == '[' {
            true
        } else {
            advance_arith_ok(g)
        },
    }
}

/// Draws `c` at the cursor (when the console draws) and advances the
/// cursor: past the last column of a grid with columns it moves to the
/// start of the next row, which asks for a refresh past the last row.
pub open spec fn advance(g: GfxConsole, c: char) -> (GfxConsole, bool, Seq<GfxOp>) {
    let ops = match (g.surface, g.font) {
        (Some(_), Some((fw, fh))) => seq![
            GfxOp::DrawChar {
                c: c as u8,
                px: (g.x * fw) as u32,
                py: (g.y * fh) as u32,
                front: g.front_color,
                back: g.back_color,
            },
        ],
        _ => Seq::empty(),
    };
    if g.columns > 0 && g.x + 1 >= g.columns {
        (GfxConsole { x: 0, y: (g.y + 1) as u32, ..g }, g.y + 1 >= g.rows, ops)
    } else {
        (GfxConsole { x: (g.x + 1) as u32, ..g }, false, ops)
    }
}

/// One character's effect before scrolling: the new console, whether the
/// screen needs a refresh, and the drawing done.
pub open spec fn put_step(g: GfxConsole, c: char) -> (GfxConsole, bool, Seq<GfxOp>) {
    match g.state {
        ConsoleState::Normal => {
            if c == '\r' {
                (GfxConsole { x: 0, ..g }, false, Seq::empty())
            } else if c == '\n' {
                (GfxConsole { y: (g.y + 1) as u32, ..g }, g.y + 1 >= g.rows, Seq::empty())
            } else if c == '\x08' {
                (GfxConsole { x: if g.x > 0 { (g.x - 1) as u32 } else { g.x }, ..g }, false, Seq::empty())
            } else if c == '\t' {
                (GfxConsole { x: ((g.x / 8 + 1) * 8) as u32, ..g }, false, Seq::empty())
            } else if c == '\x1b' {
                (GfxConsole { escape_param: 0, state: ConsoleState::Escape, ..g }, false, Seq::empty())
            } else {
                advance(g, c)
            }
        },
        ConsoleState::Escape => {
            if is_digit(c) {
                (GfxConsole { escape_param: (g.escape_param * 10 + (c as u32 - '0' as u32)) as u32, ..g }, false, Seq::empty())
            } else if c == 'D' {
                (
                    GfxConsole {
                        x: if g.escape_param <= g.x { (g.x - g.escape_param) as u32 } else { g.x },
                        state: ConsoleState::Normal,
                        ..g
                    },
                    false,
                    Seq::empty(),
                )
            } else if c == '[' {
                (g, false, Seq::empty())
            } else {
                let (h, refresh, ops) = advance(g, c);
                (GfxConsole { state: ConsoleState::Normal, ..h }, refresh, ops)
            }
        },
    }
}

/// A character's full effect: the step, then a scroll request when the
/// cursor row is past the last row (drawn only when the console draws).
pub open spec fn put_effect(g: GfxConsole, c: char) -> (GfxConsole, bool, Seq<GfxOp>) {
    let (h, refresh, ops) = put_step(g, c);
    if h.y >= h.rows {
        match (h.surface, h.font) {
            (Some(_), Some((_, fh))) => (h, refresh, ops.push(GfxOp::ScrollUp { char_height: fh, back: h.back_color })),
            _ => (h, refresh, ops),
        }
    } else {
        (h, refresh, ops)
    }
}

impl GfxConsole {
    /// A console without surface or font: no grid, cursor at the origin,
    /// default colours, normal state.
    pub fn new() -> (r: Self)
        ensures
            r.surface is None,
            r.font is None,
            r.rows == 0,
            r.columns == 0,
            r.extray == 0,
            r.x == 0,
            r.y == 0,
            r.front_color == TEXT_COLOR,
            r.back_color == BACK_COLOR,
            r.state == ConsoleState::Normal,
            r.escape_param == 0,
    {
        GfxConsole {
            surface: None,
            font: None,
            rows: 0,
            columns: 0,
            extray: 0,
            x: 0,
            y: 0,
            front_color: TEXT_COLOR,
            back_color: BACK_COLOR,
            state: ConsoleState::Normal,
            escape_param: 0,
        }
    }

    /// Sets the console up on a surface of `width` x `height` pixels with
    /// glyphs of `font_width` x `font_height`: the grid is as many whole
    /// glyphs as fit, `extray` the pixel rows left below it.
    pub fn setup(&mut self, width: u32, height: u32, font_width: u32, font_height: u32)
        requires
            font_width > 0,
            font_height > 0,
        ensures
            final(self).surface == Some((width, height)),
            final(self).font == Some((font_width, font_height)),
            final(self).rows == height / font_height,
            final(self).columns == width / font_width,
            final(self).extray == height - (height / font_height) * font_height,
            final(self).x == old(self).x,
            final(self).y == old(self).y,
            final(self).front_color == old(self).front_color,
            final(self).back_color == old(self).back_color,
            final(self).state == old(self).state,
            final(self).escape_param == old(self).escape_param,
    {
        self.surface = Some((width, height));
        self.font = Some((font_width, font_height));
        self.rows = height / font_height;
        self.columns = width / font_width;
        assert((height / font_height) * font_height <= height) by (nonlinear_arith)
            requires
                font_height > 0,
        ;
        self.extray = height - self.rows * font_height;
    }

    /// Clears the console: cursor to the origin, the normal or crash
    /// colours, and the surface filled with the background when there is
    /// one.
    pub fn clear(&mut self, crash_console: bool) -> (r: Option<GfxOp>)
        ensures
            final(self).x == 0,
            final(self).y == 0,
            final(self).front_color == (if crash_console { CRASH_TEXT_COLOR } else { TEXT_COLOR }),
            final(self).back_color == (if crash_console { CRASH_BACK_COLOR } else { BACK_COLOR }),
            final(self).surface == old(self).surface,
            final(self).font == old(self).font,
            final(self).rows == old(self).rows,
            final(self).columns == old(self).columns,
            final(self).extray == old(self).extray,
            final(self).state == old(self).state,
            final(self).escape_param == old(self).escape_param,
            r == (if old(self).surface is Some { Some(GfxOp::Fill { color: final(self).back_color }) } else { None }),
    {
        self.x = 0;
        self.y = 0;
        if crash_console {
            self.front_color = CRASH_TEXT_COLOR;
            self.back_color = CRASH_BACK_COLOR;
        } else {
            self.front_color = TEXT_COLOR;
            self.back_color = BACK_COLOR;
        }
        if self.surface.is_some() {
            Some(GfxOp::Fill { color: self.back_color })
        } else {
            None
        }
    }

    /// Draws at the cursor and advances it.
    fn advance(&mut self, c: char, ops: &mut Vec<GfxOp>) -> (refresh: bool)
        requires
            advance_arith_ok(*old(self)),
        ensures
            (*final(self), refresh, final(ops)@.subrange(old(ops)@.len() as int, final(ops)@.len() as int))
                == advance(*old(self), c),
            final(ops)@.len() >= old(ops)@.len(),
            final(ops)@.subrange(0, old(ops)@.len() as int) == old(ops)@,
    {
        let ghost o = ops@;
        match (self.surface, self.font) {
            (Some(_), Some((fw, fh))) => {
                let code = c as u32;
                ops.push(
                    GfxOp::DrawChar {
                        c: #[verifier::truncate] (code as u8),
                        px: self.x * fw,
                        py: self.y * fh,
                        front: self.front_color,
                        back: self.back_color,
                    },
                );
            },
            _ => {},
        }
        proof {
            assert(ops@.subrange(0, o.len() as int) =~= o);
        }
        let x = self.x;
        if self.columns > 0 && x + 1 >= self.columns {
            self.x = 0;
            let y = self.y;
            self.y = y + 1;
            y + 1 >= self.rows
        } else {
            self.x = x + 1;
            false
        }
    }

    /// Puts a character on the console; returns whether the screen needs a
    /// refresh, and appends the drawing it asks for to `ops`.
    pub fn putc(&mut self, c: char, ops: &mut Vec<GfxOp>) -> (refresh: bool)
        requires
            put_arith_ok(*old(self), c),
        ensures
            (*final(self), refresh, final(ops)@.subrange(old(ops)@.len() as int, final(ops)@.len() as int))
                == put_effect(*old(self), c),
            final(ops)@.len() >= old(ops)@.len(),
            final(ops)@.subrange(0, old(ops)@.len() as int) == old(ops)@,
    {
        let ghost o = ops@;
        let mut needs_refresh = false;
        match self.state {
            ConsoleState::Normal => {
                if c == '\r' {
                    self.x = 0;
                } else if c == '\n' {
                    let y = self.y;
                    self.y = y + 1;
                    if y + 1 >= self.rows {
                        needs_refresh = true;
                    }
                } else if c == '\x08' {
                    if self.x > 0 {
                        self.x = self.x - 1;
                    }
                } else if c == '\t' {
                    let x = self.x;
                    let next = (x + 8) & !7u32;
                    assert(next == (x / 8 + 1) * 8) by (bit_vector)
                        requires
                            x <= u32::MAX - 8,
                            next == ((x + 8) as u32) & !7u32,
                    ;
                    self.x = next;
                } else if c == '\x1b' {
                    self.escape_param = 0;
                    self.state = ConsoleState::Escape;
                } else {
                    needs_refresh = self.advance(c, ops);
                }
            },
            ConsoleState::Escape => {
                if '0' <= c && c <= '9' {
                    let d = (c as u32) - ('0' as u32);
                    self.escape_param = self.escape_param * 10 + d;
                } else if c == 'D' {
                    let p = self.escape_param;
                    if p <= self.x {
                        self.x = self.x - p;
                    }
                    self.state = ConsoleState::Normal;
                } else if c == '[' {
                } else {
                    needs_refresh = self.advance(c, ops);
                    self.state = ConsoleState::Normal;
                }
            },
        }
        let ghost mid = ops@;
        assert(mid.len() >= o.len() && mid.subrange(0, o.len() as int) == o);
        if self.y >= self.rows {
            match (self.surface, self.font) {
                (Some(_), Some((_, fh))) => {
                    ops.push(GfxOp::ScrollUp { char_height: fh, back: self.back_color });
                },
                _ => {},
            }
        }
        proof {
            if ops@.len() > mid.len() {
                assert(ops@.subrange(0, o.len() as int) =~= mid.subrange(0, o.len() as int));
                assert(ops@.subrange(o.len() as int, ops@.len() as int) =~= mid.subrange(
                    o.len() as int,
                    mid.len() as int,
                ).push(ops@.last()));
            } else {
                assert(ops@ == mid);
            }
        }
        needs_refresh
    }

    /// A pixel write, when there is a surface.
    pub fn putpixel(&self, x: u32, y: u32, color: u32) -> (r: Option<(u32, u32, u32)>)
        ensures
            r == (if self.surface is Some { Some((x, y, color)) } else { None }),
    {
        if self.surface.is_some() {
            Some((x, y, color))
        } else {
            None
        }
    }

    /// Whether flushing has a surface to flush.
    pub fn flush(&self) -> (r: bool)
        ensures
            r == self.surface is Some,
    {
        self.surface.is_some()
    }
}

/// The characters one byte of printed text puts: a line feed goes out as
/// carriage return and line feed.
pub open spec fn byte_chars(b: u8) -> Seq<char> {
    if b == 10 {
        seq!['\r', '\n']
    } else {
        seq![b as char]
    }
}

/// The effect of putting characters in turn: the console after them,
/// whether any asked for a refresh, and all drawing in order; `ok` tells
/// whether every step kept within `u32`.
pub open spec fn put_all(g: GfxConsole, cs: Seq<char>) -> (GfxConsole, bool, Seq<GfxOp>, bool)
    decreases cs.len(),
{
    if cs.len() == 0 {
        (g, false, Seq::empty(), true)
    } else {
        let (h, r1, ops1) = put_effect(g, cs[0]);
        let (k, r2, ops2, ok) = put_all(h, cs.drop_first());
        (k, r1 || r2, ops1 + ops2, put_arith_ok(g, cs[0]) && ok)
    }
}

/// The characters the first `n` bytes of printed text put.
pub open spec fn printed_chars(bytes: Seq<u8>, n: int) -> Seq<char>
    decreases n,
{
    if n <= 0 {
        Seq::empty()
    } else {
        printed_chars(bytes, n - 1) + byte_chars(bytes[n - 1])
    }
}

proof fn lemma_put_all_append(g: GfxConsole, a: Seq<char>, b: Seq<char>)
    ensures
        ({
            let (h, r1, ops1, ok1) = put_all(g, a);
            let (k, r2, ops2, ok2) = put_all(h, b);
            put_all(g, a + b) == (k, r1 || r2, ops1 + ops2, ok1 && ok2)
        }),
    decreases a.len(),
{
    if a.len() == 0 {
        assert(a + b =~= b);
        let (k, r2, ops2, ok2) = put_all(g, b);
        assert(Seq::<GfxOp>::empty() + ops2 =~= ops2);
    } else {
        let (h0, r0, ops0) = put_effect(g, a[0]);
        lemma_put_all_append(h0, a.drop_first(), b);
        assert((a + b).drop_first() =~= a.drop_first() + b);
        let (h1, r1, ops1, ok1) = put_all(h0, a.drop_first());
        let (k, r2, ops2, ok2) = put_all(h1, b);
        assert(ops0 + (ops1 + ops2) =~= (ops0 + ops1) + ops2);
    }
}

/// Puts the characters of one printed byte.
fn put_byte(console: &mut GfxConsole, b: u8, ops: &mut Vec<GfxOp>) -> (r: bool)
    requires
        put_all(*old(console), byte_chars(b)).3,
    ensures
        ({
            let (k, refresh, drawn, ok) = put_all(*old(console), byte_chars(b));
            *final(console) == k && r == refresh && final(ops)@ == old(ops)@ + drawn
        }),
{
    let ghost g0 = *console;
    let ghost o0 = ops@;
    proof {
        reveal_with_fuel(put_all, 3);
        if b == 10 {
            assert(byte_chars(b).drop_first() =~= seq!['\n']);
            assert(byte_chars(b).drop_first().drop_first() =~= Seq::<char>::empty());
        } else {
            assert(byte_chars(b).drop_first() =~= Seq::<char>::empty());
        }
    }
    let mut needs_refresh = false;
    if b == 10 {
        let r1 = console.putc('\r', ops);
        needs_refresh = r1;
    }
    let ghost mid = ops@;
    let r2 = console.putc(b as char, ops);
    proof {
        assert(ops@ =~= mid + ops@.subrange(mid.len() as int, ops@.len() as int));
        if b == 10 {
            assert(mid =~= o0 + mid.subrange(o0.len() as int, mid.len() as int));
            let e1 = put_effect(g0, '\r');
            let e2 = put_effect(e1.0, '\n');
            assert(e1.2 + (e2.2 + Seq::<GfxOp>::empty()) =~= e1.2 + e2.2);
            assert(ops@ =~= o0 + (e1.2 + e2.2));
        } else {
            let e = put_effect(g0, b as char);
            assert(e.2 + Seq::<GfxOp>::empty() =~= e.2);
        }
    }
    needs_refresh || r2
}

/// Prints the first `len` bytes of `text` (each byte as the character of
/// its code, a line feed as carriage return and line feed); returns
/// whether the screen needs a refresh, and appends the drawing to `ops`.
pub fn gfxconsole_print_callback(console: &mut GfxConsole, text: &str, len: usize, ops: &mut Vec<GfxOp>) -> (r: bool)
    requires
        put_all(*old(console), printed_chars(text.spec_bytes(), min_len(text.spec_bytes().len(), len as int))).3,
    ensures
        ({
            let (k, refresh, drawn, ok) = put_all(
                *old(console),
                printed_chars(text.spec_bytes(), min_len(text.spec_bytes().len(), len as int)),
            );
            *final(console) == k && r == refresh && final(ops)@ == old(ops)@ + drawn
        }),
{
    let bytes = text.as_bytes();
    let n = if len < bytes.len() {
        len
    } else {
        bytes.len()
    };
    let ghost g0 = *console;
    let ghost o0 = ops@;
    let mut needs_refresh = false;
    let mut i: usize = 0;
    proof {
        assert(o0 + Seq::<GfxOp>::empty() =~= o0);
    }
    while i < n
        invariant
            bytes@ == text.spec_bytes(),
            n == min_len(bytes@.len(), len as int),
            n <= bytes@.len(),
            0 <= i <= n,
            put_all(g0, printed_chars(bytes@, n as int)).3,
            ({
                let (k, refresh, drawn, ok) = put_all(g0, printed_chars(bytes@, i as int));
                *console == k && needs_refresh == refresh && ops@ == o0 + drawn && ok
            }),
        decreases n - i,
    {
        let b = bytes[i];
        let ghost before = ops@;
        let ghost c_before = *console;
        proof {
            let p = printed_chars(bytes@, i as int);
            lemma_put_all_append(g0, p, byte_chars(b));
            lemma_printed_prefix(bytes@, i + 1, n as int);
            lemma_put_all_append(g0, printed_chars(bytes@, i + 1), printed_rest(bytes@, i + 1, n as int));
            assert(printed_chars(bytes@, i + 1) == p + byte_chars(b));
        }
        let r = put_byte(console, b, ops);
        needs_refresh = needs_refresh || r;
        proof {
            let (k, refresh, drawn, ok) = put_all(g0, printed_chars(bytes@, i as int));
            let (k2, refresh2, drawn2, ok2) = put_all(c_before, byte_chars(b));
            assert(ops@ =~= o0 + (drawn + drawn2));
        }
        i = i + 1;
    }
    needs_refresh
}

/// The smaller of a length and a count.
pub open spec fn min_len(a: nat, b: int) -> int {
    if b < a {
        b
    } else {
        a as int
    }
}

/// The characters bytes `m..n` put.
pub open spec fn printed_rest(bytes: Seq<u8>, m: int, n: int) -> Seq<char>
    decreases n - m,
{
    if n <= m {
        Seq::empty()
    } else {
        printed_rest(bytes, m, n - 1) + byte_chars(bytes[n - 1])
    }
}

proof fn lemma_printed_prefix(bytes: Seq<u8>, m: int, n: int)
    requires
        0 <= m <= n,
    ensures
        printed_chars(bytes, n) == printed_chars(bytes, m) + printed_rest(bytes, m, n),
    decreases n - m,
{
    if n == m {
        assert(printed_chars(bytes, m) + Seq::empty() =~= printed_chars(bytes, m));
    } else {
        lemma_printed_prefix(bytes, m, n - 1);
        assert(printed_chars(bytes, m) + (printed_rest(bytes, m, n - 1) + byte_chars(bytes[n - 1])) =~= (
        printed_chars(bytes, m) + printed_rest(bytes, m, n - 1)) + byte_chars(bytes[n - 1]));
    }
}

/// Glyph size of the built-in VGA font.
pub const VGA_FONT_WIDTH: u32 = 8;
pub const VGA_FONT_HEIGHT: u32 = 16;

/// Starts the console on a surface of `width` x `height` pixels with the
/// built-in 8x16 font, cleared in the normal colours. Returns `None` when
/// a console is already running (nothing changes), else the clearing to
/// draw.
pub fn gfxconsole_start(console: &mut Option<GfxConsole>, width: u32, height: u32) -> (r: Option<Option<GfxOp>>)
    ensures
        old(console).is_some() ==> r is None && *final(console) == *old(console),
        old(console).is_none() ==> r == Some(Some(GfxOp::Fill { color: BACK_COLOR })),
        old(console).is_none() ==> (*final(console) matches Some(
            g,
        ) && g.surface == Some((width, height)) && g.font == Some((VGA_FONT_WIDTH, VGA_FONT_HEIGHT)) && g.rows
            == height / 16 && g.columns == width / 8 && g.x == 0 && g.y == 0 && g.front_color == TEXT_COLOR
            && g.back_color == BACK_COLOR && g.state == ConsoleState::Normal),
{
    if console.is_some() {
        return None;
    }
    let mut c = GfxConsole::new();
    c.setup(width, height, VGA_FONT_WIDTH, VGA_FONT_HEIGHT);
    let fill = c.clear(false);
    *console = Some(c);
    Some(fill)
}

} // verus!
