use rustux::gfxconsole::{GfxConsole, BACK_COLOR, CRASH_BACK_COLOR, CRASH_TEXT_COLOR, TEXT_COLOR};
use rustux::vga_console::{VgaConsoleState, COLOR_DEFAULT, VGA_BUFFER, VGA_HEIGHT, VGA_WIDTH};

#[test]
fn vga_console_test_constants() {
    assert_eq!(VGA_WIDTH, 80);
    assert_eq!(VGA_HEIGHT, 25);
    assert_eq!(VGA_BUFFER, 0xB8000);
}

#[test]
fn test_console_state_new() {
    let state = VgaConsoleState::new();
    assert_eq!(state.row, 0);
    assert_eq!(state.column, 0);
    assert_eq!(state.color, COLOR_DEFAULT);
}

#[test]
fn test_console_creation() {
    let console = GfxConsole::new();
    assert_eq!(console.rows, 0);
    assert_eq!(console.columns, 0);
}

#[test]
fn test_colors() {
    assert_eq!(TEXT_COLOR, 0xFFFFFFFF);
    assert_eq!(BACK_COLOR, 0xFF000000);
    assert_eq!(CRASH_TEXT_COLOR, 0xFFFFFFFF);
    assert_eq!(CRASH_BACK_COLOR, 0xFFE000E0);
}

#[test]
fn test_putc_basic() {
    let mut console = GfxConsole::new();
    let mut ops = Vec::new();
    console.putc('A', &mut ops);
    assert_eq!(console.x, 1);
}
