//! Console routing with an explicit boot/runtime split: while boot
//! services run, text goes to the UEFI text output as a NUL-terminated
//! UCS-2 line; afterwards it goes to the framebuffer text renderer only.

use vstd::prelude::*;

verus! {

/// Console operating mode.
#[derive(PartialEq, Eq, Structural, Debug, Clone, Copy)]
pub enum ConsoleMode {
    BootUefi,
    RuntimeFramebuffer,
}

/// Code stored for the boot mode.
pub const MODE_BOOT_UEFI: u8 = 0;
/// Code stored for the runtime mode.
pub const MODE_RUNTIME_FRAMEBUFFER: u8 = 1;

/// The mode a stored code stands for: 1 is the framebuffer, anything else
/// the UEFI console.
pub open spec fn mode_of(code: u8) -> ConsoleMode {
    if code == MODE_RUNTIME_FRAMEBUFFER {
        ConsoleMode::RuntimeFramebuffer
    } else {
        ConsoleMode::BootUefi
    }
}

/// The console mode, as the one-byte code the kernel keeps for it.
#[derive(PartialEq, Eq, Structural, Debug, Clone, Copy)]
pub struct ConsoleState {
    pub mode_code: u8,
}

/// Where a write goes.
#[derive(Debug)]
pub enum ConsoleRoute {
    /// To the UEFI text output: the NUL-terminated UCS-2 line, or `None`
    /// when the text cannot be handed to the firmware and is dropped.
    Uefi(Option<Vec<u16>>),
    /// To the framebuffer text renderer.
    Framebuffer,
}

impl ConsoleState {
    /// Boot mode, the state at start-up.
    pub fn new() -> (r: Self)
        ensures
            mode_of(r.mode_code) == ConsoleMode::BootUefi,
            r.mode_code == MODE_BOOT_UEFI,
    {
        ConsoleState { mode_code: MODE_BOOT_UEFI }
    }

    /// The current mode.
    pub fn mode(&self) -> (r: ConsoleMode)
        ensures
            r == mode_of(self.mode_code),
    {
        if self.mode_code == MODE_RUNTIME_FRAMEBUFFER {
            ConsoleMode::RuntimeFramebuffer
        } else {
            ConsoleMode::BootUefi
        }
    }

    /// Switch the console to framebuffer mode (just before boot services
    /// end); every later write goes to the framebuffer.
    pub fn switch_to_framebuffer_console(&mut self)
        ensures
            final(self).mode_code == MODE_RUNTIME_FRAMEBUFFER,
            mode_of(final(self).mode_code) == ConsoleMode::RuntimeFramebuffer,
    {
        self.mode_code = MODE_RUNTIME_FRAMEBUFFER;
    }
}

/// UTF-16 code units of one character: itself below 0x10000, otherwise a
/// high and a low surrogate.
pub open spec fn utf16_char(c: char) -> Seq<u16> {
    let v = c as u32;
    if v < 0x10000 {
        seq![v as u16]
    } else {
        seq![
            (0xD800 + (v - 0x10000) / 0x400) as u16,
            (0xDC00 + (v - 0x10000) % 0x400) as u16,
        ]
    }
}

/// UTF-16 encoding of a character sequence.
pub open spec fn utf16_of(s: Seq<char>) -> Seq<u16>
    decreases s.len(),
{
    if s.len() == 0 {
        Seq::empty()
    } else {
        utf16_of(s.drop_last()) + utf16_char(s.last())
    }
}

/// Code units the UEFI line buffer holds before its NUL.
pub const UEFI_LINE_UNITS: usize = 255;

/// The line handed to the firmware: the first 255 UTF-16 units of the
/// text, then a NUL.
pub open spec fn uefi_line(s: Seq<char>) -> Seq<u16> {
    let u = utf16_of(s);
    (if u.len() <= UEFI_LINE_UNITS { u } else { u.take(UEFI_LINE_UNITS as int) }).push(0)
}

/// What `uefi::CStr16::from_u16_with_nul` accepts: the codes end in a NUL,
/// and no earlier code is a NUL or a surrogate (not a UCS-2 character).
pub open spec fn ucs2_with_nul(codes: Seq<u16>) -> bool {
    &&& codes.len() > 0
    &&& codes.last() == 0
    &&& forall|k: int|
        0 <= k < codes.len() - 1 ==> #[trigger] codes[k] != 0 && !(0xD800 <= codes[k] <= 0xDFFF)
}

/// Calls `uefi::CStr16::from_u16_with_nul` and reports whether it built a
/// string; by that function's source, it does exactly when the slice is
/// NUL-terminated with no interior NUL and every code before the NUL is a
/// valid UCS-2 character, that is, not a surrogate.
#[verifier::external_body]
fn cstr16_accepts(codes: &[u16]) -> (r: bool)
    ensures
        r == ucs2_with_nul(codes@),
{
    uefi::CStr16::from_u16_with_nul(codes).is_ok()
}

proof fn lemma_utf16_append(a: Seq<char>, b: Seq<char>)
    ensures
        utf16_of(a + b) == utf16_of(a) + utf16_of(b),
    decreases b.len(),
{
    if b.len() == 0 {
        assert(a + b =~= a);
        assert(utf16_of(a) + utf16_of(b) =~= utf16_of(a));
    } else {
        lemma_utf16_append(a, b.drop_last());
        assert((a + b).drop_last() =~= a + b.drop_last());
        assert((a + b).last() == b.last());
        assert(utf16_of(a + b) =~= utf16_of(a) + utf16_of(b));
    }
}

proof fn lemma_utf16_prefix(s: Seq<char>, i: int)
    requires
        0 <= i <= s.len(),
    ensures
        utf16_of(s.take(i)).len() <= utf16_of(s).len(),
        utf16_of(s).take(utf16_of(s.take(i)).len() as int) == utf16_of(s.take(i)),
{
    assert(s =~= s.take(i) + s.skip(i));
    lemma_utf16_append(s.take(i), s.skip(i));
    assert(utf16_of(s).take(utf16_of(s.take(i)).len() as int) =~= utf16_of(s.take(i)));
}

/// Whether every character is in the basic multilingual plane (below
/// 0xD800 or from 0xE000 to 0xFFFF) and not NUL.
pub open spec fn plain_bmp(s: Seq<char>) -> bool {
    forall|i: int| 0 <= i < s.len() ==> bmp_char(#[trigger] s[i])
}

/// A character of the basic multilingual plane other than NUL.
pub open spec fn bmp_char(c: char) -> bool {
    let v = c as u32;
    0 < v && (v < 0xD800 || (0xE000 <= v && v < 0x10000))
}

proof fn lemma_plain_units(s: Seq<char>)
    requires
        plain_bmp(s),
    ensures
        utf16_of(s).len() == s.len(),
        forall|k: int|
            0 <= k < utf16_of(s).len() ==> #[trigger] utf16_of(s)[k] != 0 && !(0xD800 <= utf16_of(s)[k] <= 0xDFFF),
    decreases s.len(),
{
    if s.len() > 0 {
        let init = s.drop_last();
        assert forall|i: int| 0 <= i < init.len() implies bmp_char(#[trigger] init[i]) by {
            assert(init[i] == s[i]);
        }
        lemma_plain_units(init);
        let c = s.last();
        assert(s[s.len() - 1] == c);
        assert(bmp_char(c));
        let v = c as u32;
        assert(utf16_char(c) == seq![v as u16]);
        assert((v as u16) as int == v as int);
    }
}

/// Text of characters from the basic multilingual plane, none of them NUL,
/// always reaches the UEFI console: its line is a string the firmware type
/// accepts, however long the text (the line keeps its first 255 units).
pub proof fn lemma_plain_text_accepted(s: Seq<char>)
    requires
        plain_bmp(s),
    ensures
        ucs2_with_nul(uefi_line(s)),
{
    lemma_plain_units(s);
    let u = utf16_of(s);
    let kept = if u.len() <= UEFI_LINE_UNITS { u } else { u.take(UEFI_LINE_UNITS as int) };
    let line = kept.push(0);
    assert forall|k: int| 0 <= k < line.len() - 1 implies #[trigger] line[k] != 0 && !(0xD800 <= line[k]
        <= 0xDFFF) by {
        assert(line[k] == kept[k]);
        assert(kept[k] == u[k]);
    }
}

/// Pushes the UTF-16 units of `c` while the line has room; reports whether
/// a unit had to be left out.
fn push_char_units(units: &mut Vec<u16>, c: char) -> (full: bool)
    requires
        old(units)@.len() <= UEFI_LINE_UNITS,
    ensures
        final(units)@.len() <= UEFI_LINE_UNITS,
        !full ==> final(units)@ == old(units)@ + utf16_char(c),
        full ==> final(units)@.len() == UEFI_LINE_UNITS,
        full ==> (old(units)@ + utf16_char(c)).len() > UEFI_LINE_UNITS,
        full ==> (old(units)@ + utf16_char(c)).take(UEFI_LINE_UNITS as int) == final(units)@,
{
    let v = c as u32;
    if v < 0x10000 {
        if units.len() >= UEFI_LINE_UNITS {
            return true;
        }
        units.push(v as u16);
        false
    } else {
        let w = v - 0x10000;
        let high = (0xD800 + w / 0x400) as u16;
        let low = (0xDC00 + w % 0x400) as u16;
        if units.len() >= UEFI_LINE_UNITS {
            return true;
        }
        units.push(high);
        if units.len() >= UEFI_LINE_UNITS {
            proof {
                assert((old(units)@ + utf16_char(c)).take(UEFI_LINE_UNITS as int) =~= units@);
            }
            return true;
        }
        units.push(low);
        proof {
            assert(units@ =~= old(units)@ + utf16_char(c));
        }
        false
    }
}

/// The NUL-terminated UTF-16 line for the UEFI console: at most 255 units
/// of the text, then a NUL.
pub fn uefi_units(s: &str) -> (r: Vec<u16>)
    ensures
        r@ == uefi_line(s@),
{
    let n = s.unicode_len();
    let mut units: Vec<u16> = Vec::new();
    let mut i: usize = 0;
    let mut full = false;
    while i < n && !full
        invariant
            n == s@.len(),
            i <= n,
            units@.len() <= UEFI_LINE_UNITS,
            !full ==> units@ == utf16_of(s@.take(i as int)),
            full ==> utf16_of(s@).len() > UEFI_LINE_UNITS,
            full ==> units@ == utf16_of(s@).take(UEFI_LINE_UNITS as int),
        decreases n - i,
    {
        let c = s.get_char(i);
        let ghost before = units@;
        proof {
            assert(s@.take(i + 1).drop_last() =~= s@.take(i as int));
            assert(s@.take(i + 1).last() == c);
            lemma_utf16_prefix(s@, i + 1);
        }
        full = push_char_units(&mut units, c);
        if full {
            proof {
                let whole = utf16_of(s@);
                let upto = utf16_of(s@.take(i + 1));
                assert(upto == before + utf16_char(c));
                assert(whole.take(upto.len() as int) == upto);
                assert(whole.take(UEFI_LINE_UNITS as int) =~= upto.take(UEFI_LINE_UNITS as int));
            }
        }
        i = i + 1;
    }
    proof {
        if !full {
            assert(s@.take(n as int) =~= s@);
        }
    }
    units.push(0);
    units
}

/// The line for the UEFI text output, or `None` when the firmware string
/// type refuses it (a NUL or a character beyond UCS-2 in the text): such
/// text is dropped.
pub fn write_uefi(s: &str) -> (r: Option<Vec<u16>>)
    ensures
        ucs2_with_nul(uefi_line(s@)) ==> r.is_some() && r.unwrap()@ == uefi_line(s@),
        !ucs2_with_nul(uefi_line(s@)) ==> r.is_none(),
{
    let units = uefi_units(s);
    if cstr16_accepts(units.as_slice()) {
        Some(units)
    } else {
        None
    }
}

/// Write a string to the active console.
pub fn write_str(console: &ConsoleState, s: &str) -> (r: ConsoleRoute)
    ensures
        mode_of(console.mode_code) == ConsoleMode::RuntimeFramebuffer ==> r is Framebuffer,
        mode_of(console.mode_code) == ConsoleMode::BootUefi ==> match r {
            ConsoleRoute::Uefi(line) => if ucs2_with_nul(uefi_line(s@)) {
                line.is_some() && line.unwrap()@ == uefi_line(s@)
            } else {
                line.is_none()
            },
            ConsoleRoute::Framebuffer => false,
        },
{
    match console.mode() {
        ConsoleMode::BootUefi => ConsoleRoute::Uefi(write_uefi(s)),
        ConsoleMode::RuntimeFramebuffer => ConsoleRoute::Framebuffer,
    }
}

/// Write a line: the text, then a newline, each routed as `write_str`
/// routes it.
pub fn write_line(console: &ConsoleState, s: &str) -> (r: (ConsoleRoute, ConsoleRoute))
    ensures
        mode_of(console.mode_code) == ConsoleMode::RuntimeFramebuffer ==> r.0 is Framebuffer && r.1 is Framebuffer,
        mode_of(console.mode_code) == ConsoleMode::BootUefi ==> match r.0 {
            ConsoleRoute::Uefi(line) => if ucs2_with_nul(uefi_line(s@)) {
                line.is_some() && line.unwrap()@ == uefi_line(s@)
            } else {
                line.is_none()
            },
            ConsoleRoute::Framebuffer => false,
        },
        mode_of(console.mode_code) == ConsoleMode::BootUefi ==> match r.1 {
            ConsoleRoute::Uefi(line) => line.is_some() && line.unwrap()@ == seq![10u16, 0u16],
            ConsoleRoute::Framebuffer => false,
        },
{
    let first = write_str(console, s);
    let newline = "\n";
    proof {
        reveal_strlit("\n");
        assert(utf16_of(newline@.drop_last()) =~= Seq::<u16>::empty());
        assert(uefi_line(newline@) =~= seq![10u16, 0u16]);
    }
    let second = write_str(console, newline);
    (first, second)
}

/// Panic-safe console output: the UEFI line in boot mode, the
/// framebuffer's emergency writer afterwards.
pub fn emergency_write(console: &ConsoleState, s: &str) -> (r: ConsoleRoute)
    ensures
        mode_of(console.mode_code) == ConsoleMode::RuntimeFramebuffer ==> r is Framebuffer,
        mode_of(console.mode_code) == ConsoleMode::BootUefi ==> match r {
            ConsoleRoute::Uefi(line) => if ucs2_with_nul(uefi_line(s@)) {
                line.is_some() && line.unwrap()@ == uefi_line(s@)
            } else {
                line.is_none()
            },
            ConsoleRoute::Framebuffer => false,
        },
{
    write_str(console, s)
}

} // verus!
