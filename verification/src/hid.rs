//! USB HID boot-protocol keyboard reports: key code translation and
//! press detection.

use vstd::prelude::*;

verus! {

/// USB HID boot protocol keyboard report (always 8 bytes).
#[derive(Clone, Copy, Debug)]
pub struct KeyboardReport {
    pub modifier: u8,
    pub reserved: u8,
    pub keycodes: [u8; 6],
}

pub const MODIFIER_LEFT_CTRL: u8 = 0x01;
pub const MODIFIER_LEFT_SHIFT: u8 = 0x02;
pub const MODIFIER_LEFT_ALT: u8 = 0x04;
pub const MODIFIER_LEFT_GUI: u8 = 0x08;
pub const MODIFIER_RIGHT_CTRL: u8 = 0x10;
pub const MODIFIER_RIGHT_SHIFT: u8 = 0x20;
pub const MODIFIER_RIGHT_ALT: u8 = 0x40;
pub const MODIFIER_RIGHT_GUI: u8 = 0x80;

/// HID keyboard usage ID to ASCII (unshifted) on a US layout: letters
/// from 0x04, digits `1`-`0` from 0x1E, Enter, Escape, Backspace, Tab and
/// Space at 0x28-0x2C, symbols from 0x2D, the keypad from 0x54; 0 marks
/// keys without a character.
pub const HID_TO_ASCII: [u8; 256] = [
    0, 0, 0, 0, 97, 98, 99, 100, 101, 102, 103, 104, 105, 106, 107, 108,
    109, 110, 111, 112, 113, 114, 115, 116, 117, 118, 119, 120, 121, 122, 49, 50,
    51, 52, 53, 54, 55, 56, 57, 48, 10, 27, 8, 9, 32, 45, 61, 91,
    93, 92, 0, 59, 39, 96, 44, 46, 47, 0, 0, 0, 0, 0, 0, 0,
    0, 0, 0, 0, 0, 0, 0, 0, 0, 0, 0, 0, 0, 0, 0, 0,
    0, 0, 0, 0, 47, 42, 45, 43, 10, 49, 50, 51, 52, 53, 54, 55,
    56, 57, 48, 46, 0, 0, 0, 0, 0, 0, 0, 0, 0, 0, 0, 0,
    0, 0, 0, 0, 0, 0, 0, 0, 0, 0, 0, 0, 0, 0, 0, 0,
    0, 0, 0, 0, 0, 0, 0, 0, 0, 0, 0, 0, 0, 0, 0, 0,
    0, 0, 0, 0, 0, 0, 0, 0, 0, 0, 0, 0, 0, 0, 0, 0,
    0, 0, 0, 0, 0, 0, 0, 0, 0, 0, 0, 0, 0, 0, 0, 0,
    0, 0, 0, 0, 0, 0, 0, 0, 0, 0, 0, 0, 0, 0, 0, 0,
    0, 0, 0, 0, 0, 0, 0, 0, 0, 0, 0, 0, 0, 0, 0, 0,
    0, 0, 0, 0, 0, 0, 0, 0, 0, 0, 0, 0, 0, 0, 0, 0,
    0, 0, 0, 0, 0, 0, 0, 0, 0, 0, 0, 0, 0, 0, 0, 0,
    0, 0, 0, 0, 0, 0, 0, 0, 0, 0, 0, 0, 0, 0, 0, 0,
];

/// Shifted characters of the digit keys `1` to `9` and `0`.
pub const SHIFT_NUMBER: [u8; 10] = [33, 64, 35, 36, 37, 94, 38, 42, 40, 41];

/// Shifted characters of `- = [ ] \ ; ' , . /` (0 where unused).
pub const SHIFT_SYMBOL: [u8; 12] = [95, 43, 123, 125, 124, 0, 58, 34, 0, 60, 62, 63];

/// Whether either shift bit is set in the modifier byte.
pub open spec fn shift_held(modifier: u8) -> bool {
    (modifier & MODIFIER_LEFT_SHIFT) != 0 || (modifier & MODIFIER_RIGHT_SHIFT) != 0
}

/// The shifted form of an unshifted ASCII character on a US layout.
pub open spec fn shifted_ascii(a: u8) -> u8 {
    if 97 <= a <= 122 {
        (a - 32) as u8
    } else if 49 <= a <= 57 {
        SHIFT_NUMBER@[a - 49]
    } else if a == 48 {
        41
    } else if a == 45 {
        SHIFT_SYMBOL@[0]
    } else if a == 61 {
        SHIFT_SYMBOL@[1]
    } else if a == 91 {
        SHIFT_SYMBOL@[2]
    } else if a == 93 {
        SHIFT_SYMBOL@[3]
    } else if a == 92 {
        SHIFT_SYMBOL@[4]
    } else if a == 59 {
        SHIFT_SYMBOL@[6]
    } else if a == 39 {
        SHIFT_SYMBOL@[7]
    } else if a == 44 {
        SHIFT_SYMBOL@[9]
    } else if a == 46 {
        SHIFT_SYMBOL@[10]
    } else if a == 47 {
        SHIFT_SYMBOL@[11]
    } else {
        a
    }
}

/// The character a key code produces under a modifier byte (0 for none).
pub open spec fn keycode_ascii(keycode: u8, modifier: u8) -> u8 {
    let a = HID_TO_ASCII@[keycode as int];
    if shift_held(modifier) {
        shifted_ascii(a)
    } else {
        a
    }
}

/// The US layout of the main keyboard block, by HID usage ID: without
/// shift, letters a-z from 0x04, digits 1-9 and 0 from 0x1E, and the
/// symbol keys `- = [ ] \ ; ' , . /`; with either shift bit (0x02 left,
/// 0x20 right) held, letters A-Z, `! @ # $ % ^ & * ( )` on the digits and
/// `_ + { } | : " < > ?` on the symbol keys.
pub proof fn lemma_us_layout(keycode: u8, modifier: u8)
    ensures
        ({
            let shift = modifier & 0x02 != 0 || modifier & 0x20 != 0;
            let c = keycode_ascii(keycode, modifier);
            &&& (0x04 <= keycode <= 0x1D ==> c == (if shift { 65 + keycode - 0x04 } else { 97 + keycode - 0x04 }))
            &&& (!shift ==> (keycode == 0x1E ==> c == 49) && (keycode == 0x26 ==> c == 57) && (keycode == 0x27 ==> c
                == 48) && (keycode == 0x28 ==> c == 10) && (keycode == 0x2C ==> c == 32) && (keycode == 0x2D ==> c
                == 45) && (keycode == 0x2E ==> c == 61) && (keycode == 0x2F ==> c == 91) && (keycode == 0x30 ==> c
                == 93) && (keycode == 0x31 ==> c == 92) && (keycode == 0x33 ==> c == 59) && (keycode == 0x34 ==> c
                == 39) && (keycode == 0x36 ==> c == 44) && (keycode == 0x37 ==> c == 46) && (keycode == 0x38 ==> c
                == 47))
            &&& (shift ==> (keycode == 0x1E ==> c == 33) && (keycode == 0x1F ==> c == 64) && (keycode == 0x20 ==> c
                == 35) && (keycode == 0x21 ==> c == 36) && (keycode == 0x22 ==> c == 37) && (keycode == 0x23 ==> c
                == 94) && (keycode == 0x24 ==> c == 38) && (keycode == 0x25 ==> c == 42) && (keycode == 0x26 ==> c
                == 40) && (keycode == 0x27 ==> c == 41) && (keycode == 0x2D ==> c == 95) && (keycode == 0x2E ==> c
                == 43) && (keycode == 0x2F ==> c == 123) && (keycode == 0x30 ==> c == 125) && (keycode == 0x31 ==> c
                == 124) && (keycode == 0x33 ==> c == 58) && (keycode == 0x34 ==> c == 34) && (keycode == 0x36 ==> c
                == 60) && (keycode == 0x37 ==> c == 62) && (keycode == 0x38 ==> c == 63))
        }),
{
    assert(shift_held(modifier) == (modifier & 0x02 != 0 || modifier & 0x20 != 0));
    assert(HID_TO_ASCII@.len() == 256);
}

/// Whether the modifier byte holds left or right shift.
pub fn is_shift(modifier: u8) -> (r: bool)
    ensures
        r == shift_held(modifier),
{
    (modifier & MODIFIER_LEFT_SHIFT != 0) || (modifier & MODIFIER_RIGHT_SHIFT != 0)
}

/// Translates a key code to ASCII with shift handling.
pub fn keycode_to_ascii(keycode: u8, modifier: u8) -> (r: u8)
    ensures
        r == keycode_ascii(keycode, modifier),
{
    let mut ascii = HID_TO_ASCII[keycode as usize];
    if is_shift(modifier) {
        if ascii >= 97 && ascii <= 122 {
            ascii = ascii - 32;
        } else if ascii >= 49 && ascii <= 57 {
            ascii = SHIFT_NUMBER[(ascii - 49) as usize];
        } else if ascii == 48 {
            ascii = 41;
        } else if ascii == 45 {
            ascii = SHIFT_SYMBOL[0];
        } else if ascii == 61 {
            ascii = SHIFT_SYMBOL[1];
        } else if ascii == 91 {
            ascii = SHIFT_SYMBOL[2];
        } else if ascii == 93 {
            ascii = SHIFT_SYMBOL[3];
        } else if ascii == 92 {
            ascii = SHIFT_SYMBOL[4];
        } else if ascii == 59 {
            ascii = SHIFT_SYMBOL[6];
        } else if ascii == 39 {
            ascii = SHIFT_SYMBOL[7];
        } else if ascii == 44 {
            ascii = SHIFT_SYMBOL[9];
        } else if ascii == 46 {
            ascii = SHIFT_SYMBOL[10];
        } else if ascii == 47 {
            ascii = SHIFT_SYMBOL[11];
        }
    }
    ascii
}

/// The keys held in the previous report, against which presses are
/// detected.
pub struct HidKeyState {
    pub previous_keycodes: [u8; 6],
    pub previous_modifier: u8,
}

impl HidKeyState {
    /// No key held.
    pub fn new() -> (r: Self)
        ensures
            r.previous_keycodes@ == seq![0u8, 0u8, 0u8, 0u8, 0u8, 0u8],
            r.previous_modifier == 0,
    {
        HidKeyState { previous_keycodes: [0, 0, 0, 0, 0, 0], previous_modifier: 0 }
    }
}

/// Whether a key code is newly pressed: absent from the previous report.
pub fn is_key_press(state: &HidKeyState, keycode: u8) -> (r: bool)
    ensures
        r == !state.previous_keycodes@.contains(keycode),
{
    let mut i: usize = 0;
    while i < 6
        invariant
            0 <= i <= 6,
            forall|j: int| 0 <= j < i ==> state.previous_keycodes@[j] != keycode,
        decreases 6 - i,
    {
        if state.previous_keycodes[i] == keycode {
            assert(state.previous_keycodes@[i as int] == keycode);
            return false;
        }
        i = i + 1;
    }
    true
}

/// The character of the first key (in report order) that is non-zero,
/// newly pressed and has a character, scanning from index `i`.
pub open spec fn first_new_char(keys: Seq<u8>, prev: Seq<u8>, modifier: u8, i: int) -> Option<u8>
    decreases keys.len() - i,
{
    if i < 0 || i >= keys.len() {
        None
    } else {
        let k = keys[i];
        if k != 0 && !prev.contains(k) && keycode_ascii(k, modifier) != 0 {
            Some(keycode_ascii(k, modifier))
        } else {
            first_new_char(keys, prev, modifier, i + 1)
        }
    }
}

/// Held keys do not repeat: a report whose keys were all held in the
/// previous report (zero slots aside) gives no character, whatever the
/// modifiers; in particular, sending the same report twice types once.
pub proof fn lemma_held_keys_do_not_repeat(keys: Seq<u8>, prev: Seq<u8>, modifier: u8, i: int)
    requires
        forall|j: int| 0 <= j < keys.len() ==> #[trigger] keys[j] == 0 || prev.contains(keys[j]),
    ensures
        first_new_char(keys, prev, modifier, i) is None,
    decreases keys.len() - i,
{
    if 0 <= i < keys.len() {
        lemma_held_keys_do_not_repeat(keys, prev, modifier, i + 1);
    }
}

/// Returns the character of the first newly pressed key of the report
/// (held keys do not repeat), then records the report as the held keys.
pub fn parse_keyboard_report(state: &mut HidKeyState, report: &KeyboardReport) -> (r: Option<char>)
    ensures
        r == (match first_new_char(
            report.keycodes@,
            old(state).previous_keycodes@,
            report.modifier,
            0,
        ) {
            Some(a) => Some(a as char),
            None => None,
        }),
        final(state).previous_keycodes@ == report.keycodes@,
        final(state).previous_modifier == report.modifier,
{
    let ghost target = first_new_char(report.keycodes@, state.previous_keycodes@, report.modifier, 0);
    let mut result: Option<char> = None;
    let mut i: usize = 0;
    while i < 6
        invariant_except_break
            0 <= i <= 6,
            result is None,
            target == first_new_char(report.keycodes@, state.previous_keycodes@, report.modifier, i as int),
        ensures
            result == (match target {
                Some(a) => Some(a as char),
                None => None,
            }),
        decreases 6 - i,
    {
        let keycode = report.keycodes[i];
        if keycode != 0 && is_key_press(state, keycode) {
            let ascii = keycode_to_ascii(keycode, report.modifier);
            if ascii != 0 {
                result = Some(ascii as char);
                break;
            }
        }
        i = i + 1;
    }
    update_key_state(state, report);
    result
}

/// Records a report as the held keys.
pub fn update_key_state(state: &mut HidKeyState, report: &KeyboardReport)
    ensures
        final(state).previous_keycodes@ == report.keycodes@,
        final(state).previous_modifier == report.modifier,
{
    state.previous_keycodes = report.keycodes;
    state.previous_modifier = report.modifier;
}

/// One keyboard poll: with a controller up, a keyboard enumerated and a
/// report read (`bytes_read` > 0), the report in `buffer` is decoded as
/// `parse_keyboard_report` decodes it; otherwise there is no character and
/// the held keys stay as they were.
pub fn poll_keyboard(
    controller_present: bool,
    device: &crate::device::UsbDeviceState,
    state: &mut HidKeyState,
    bytes_read: usize,
    buffer: &[u8; 8],
) -> (r: Option<char>)
    ensures
        !(controller_present && device.hid_keyboard is Some && bytes_read > 0) ==> {
            &&& r is None
            &&& final(state).previous_keycodes@ == old(state).previous_keycodes@
            &&& final(state).previous_modifier == old(state).previous_modifier
        },
        (controller_present && device.hid_keyboard is Some && bytes_read > 0) ==> {
            &&& r == (match first_new_char(buffer@.subrange(2, 8), old(state).previous_keycodes@, buffer@[0], 0) {
                Some(a) => Some(a as char),
                None => None,
            })
            &&& final(state).previous_keycodes@ == buffer@.subrange(2, 8)
            &&& final(state).previous_modifier == buffer@[0]
        },
{
    if !controller_present {
        return None;
    }
    if crate::device::get_hid_keyboard(device).is_none() {
        return None;
    }
    if bytes_read == 0 {
        return None;
    }
    let report = crate::device::parse_report_buffer(buffer);
    let ch = parse_keyboard_report(state, &report);
    update_key_state(state, &report);
    ch
}

} // verus!
