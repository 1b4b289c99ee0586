//! Colour themes of the shell, in the sixteen colours of the UEFI text
//! console. The default is the Dracula palette mapped to its nearest
//! console colours.

use vstd::prelude::*;

verus! {

/// The sixteen UEFI text console colours; the first eight can also be
/// background colours.
#[derive(PartialEq, Eq, Structural, Debug, Clone, Copy)]
pub enum TextColor {
    Black,
    Blue,
    Green,
    Cyan,
    Red,
    Magenta,
    Brown,
    LightGray,
    DarkGray,
    LightBlue,
    LightGreen,
    LightCyan,
    LightRed,
    LightMagenta,
    Yellow,
    White,
}

/// A colour scheme.
#[derive(PartialEq, Eq, Structural, Debug, Clone, Copy)]
pub struct Theme {
    /// Background colour.
    pub background: TextColor,
    /// Current line/selection background.
    pub background_alt: TextColor,
    /// Primary foreground text.
    pub foreground: TextColor,
    /// User input text.
    pub input: TextColor,
    /// Prompt colour.
    pub prompt: TextColor,
    /// System messages.
    pub info: TextColor,
    /// Success messages.
    pub success: TextColor,
    /// Warning messages.
    pub warning: TextColor,
    /// Error messages.
    pub error: TextColor,
}

/// The Dracula palette on the console: blue background, white text, yellow
/// prompt (f1fa8c), cyan information (8be9fd), green success (50fa7b),
/// yellow warnings and red errors (ff5555).
pub open spec fn dracula_spec() -> Theme {
    Theme {
        background: TextColor::Blue,
        background_alt: TextColor::Black,
        foreground: TextColor::White,
        input: TextColor::White,
        prompt: TextColor::Yellow,
        info: TextColor::Cyan,
        success: TextColor::Green,
        warning: TextColor::Yellow,
        error: TextColor::Red,
    }
}

/// The default Dracula theme.
pub fn get_dracula_theme() -> (r: Theme)
    ensures
        r == dracula_spec(),
{
    Theme {
        background: TextColor::Blue,
        background_alt: TextColor::Black,
        foreground: TextColor::White,
        input: TextColor::White,
        prompt: TextColor::Yellow,
        info: TextColor::Cyan,
        success: TextColor::Green,
        warning: TextColor::Yellow,
        error: TextColor::Red,
    }
}

/// Light theme: black text on white, blue prompt and information.
pub fn light_theme() -> (r: Theme)
    ensures
        r == (Theme {
            background: TextColor::White,
            background_alt: TextColor::Black,
            foreground: TextColor::Black,
            input: TextColor::Black,
            prompt: TextColor::Blue,
            info: TextColor::Blue,
            success: TextColor::Green,
            warning: TextColor::Yellow,
            error: TextColor::Red,
        }),
{
    Theme {
        background: TextColor::White,
        background_alt: TextColor::Black,
        foreground: TextColor::Black,
        input: TextColor::Black,
        prompt: TextColor::Blue,
        info: TextColor::Blue,
        success: TextColor::Green,
        warning: TextColor::Yellow,
        error: TextColor::Red,
    }
}

/// High contrast theme: white text on black.
pub fn high_contrast_theme() -> (r: Theme)
    ensures
        r == (Theme {
            background: TextColor::Black,
            background_alt: TextColor::Black,
            foreground: TextColor::White,
            input: TextColor::White,
            prompt: TextColor::Yellow,
            info: TextColor::Cyan,
            success: TextColor::Green,
            warning: TextColor::Yellow,
            error: TextColor::Red,
        }),
{
    Theme {
        background: TextColor::Black,
        background_alt: TextColor::Black,
        foreground: TextColor::White,
        input: TextColor::White,
        prompt: TextColor::Yellow,
        info: TextColor::Cyan,
        success: TextColor::Green,
        warning: TextColor::Yellow,
        error: TextColor::Red,
    }
}

/// The active theme: Dracula.
pub fn get_active_theme() -> (r: Theme)
    ensures
        r == dracula_spec(),
{
    get_dracula_theme()
}

} // verus!
