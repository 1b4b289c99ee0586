use rustux::keyboard::{
    InputBuffer, INPUT_BUFFER_SIZE, KEYBOARD_COMMAND_PORT, KEYBOARD_DATA_PORT, SCAN_CODE_TO_ASCII,
};
use rustux::device::{has_hid_keyboard, UsbDeviceState};

#[test]
fn keyboard_test_constants() {
    assert_eq!(KEYBOARD_DATA_PORT, 0x60);
    assert_eq!(KEYBOARD_COMMAND_PORT, 0x64);
    assert_eq!(INPUT_BUFFER_SIZE, 256);
}

#[test]
fn keyboard_test_scan_code_table_size() {
    assert_eq!(SCAN_CODE_TO_ASCII.len(), 128);
}

#[test]
fn keyboard_test_input_buffer_new() {
    let buffer = InputBuffer::new();
    assert!(!buffer.has_data());
    assert_eq!(buffer.available(), 0);
}

#[test]
fn mod_test_input_buffer_new() {
    let buffer = InputBuffer::new();
    assert!(!buffer.has_data());
}

#[test]
fn test_input_buffer_write_read() {
    let mut buffer = InputBuffer::new();
    assert!(buffer.write(b'A'));
    assert!(buffer.has_data());
    assert_eq!(buffer.read(), Some(b'A'));
    assert!(!buffer.has_data());
}

#[test]
fn ps2_test_constants() {
    assert_eq!(KEYBOARD_DATA_PORT, 0x60);
    assert_eq!(KEYBOARD_COMMAND_PORT, 0x64);
}

#[test]
fn ps2_test_scan_code_table_size() {
    assert_eq!(SCAN_CODE_TO_ASCII.len(), 128);
}

#[test]
fn test_init_exists() {
    // Initialisation needs hardware; the decision it takes is tested with
    // the USB bring-up outcomes.
}

#[test]
fn test_is_keyboard_available_exists() {
    let state = UsbDeviceState::new();
    assert!(!has_hid_keyboard(&state));
}

#[test]
fn input_buffer_is_fifo() {
    let mut buffer = InputBuffer::new();
    for b in [1u8, 2, 3] {
        assert!(buffer.write(b));
    }
    assert_eq!(buffer.available(), 3);
    assert_eq!(buffer.read(), Some(1));
    assert_eq!(buffer.read(), Some(2));
    assert_eq!(buffer.read(), Some(3));
    assert_eq!(buffer.read(), None);
}

#[test]
fn input_buffer_keeps_one_slot_free() {
    let mut buffer = InputBuffer::new();
    for i in 0..255u32 {
        assert!(buffer.write(i as u8));
    }
    assert_eq!(buffer.available(), 255);
    assert!(!buffer.write(0xAA));
    assert_eq!(buffer.available(), 255);
    assert_eq!(buffer.read(), Some(0));
    assert!(buffer.write(0xAA));
    assert_eq!(buffer.available(), 255);
}

#[test]
fn input_buffer_wraps_around() {
    let mut buffer = InputBuffer::new();
    for round in 0..600u32 {
        assert!(buffer.write(round as u8));
        assert_eq!(buffer.read(), Some(round as u8));
    }
    assert!(!buffer.has_data());
}
