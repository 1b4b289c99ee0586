use rustux::acpi::{find_rsdp, guid_eq, ConfigTableEntry};
use rustux::console::{emergency_write, uefi_units, write_line, write_str, write_uefi, ConsoleMode, ConsoleRoute, ConsoleState};
use rustux::framebuffer::{
    display_status, display_test_pattern, fill_screen, is_available, quadrant_color, set_pixel,
    test_single_pixel, test_single_scanline, FramebufferInfo, GopPixelFormat, BLUE, GREEN, RED, YELLOW,
};
use rustux::loader::{coalesce_ranges, MemoryRange, RustuxMemoryType};
use rustux::theme::{get_active_theme, get_dracula_theme, high_contrast_theme, light_theme, TextColor};

const ACPI2: [u8; 16] = [
    0x71, 0xe8, 0x68, 0x88, 0xf1, 0xe4, 0xd3, 0x11, 0xbc, 0x22, 0x00, 0x80, 0xc7, 0x3c, 0x88, 0x81,
];
const SMBIOS: [u8; 16] = [
    0x31, 0x2d, 0x9d, 0xeb, 0x88, 0x2d, 0xd3, 0x11, 0x9a, 0x16, 0x00, 0x90, 0x27, 0x3f, 0xc1, 0x4d,
];

#[test]
fn rsdp_is_the_first_acpi2_entry_with_a_table() {
    let entries = vec![
        ConfigTableEntry { guid: SMBIOS, address: 0x1000 },
        ConfigTableEntry { guid: ACPI2, address: 0 },
        ConfigTableEntry { guid: ACPI2, address: 0x7fe1_4000 },
        ConfigTableEntry { guid: ACPI2, address: 0x9000 },
    ];
    assert_eq!(find_rsdp(&entries), Some(0x7fe1_4000));
}

#[test]
fn rsdp_absent_without_acpi2_entry() {
    let entries = vec![ConfigTableEntry { guid: SMBIOS, address: 0x1000 }];
    assert_eq!(find_rsdp(&entries), None);
    assert_eq!(find_rsdp(&Vec::new()), None);
}

#[test]
fn acpi2_guid_matches_firmware_constant() {
    let firmware = uefi::table::cfg::ConfigTableEntry::ACPI2_GUID.to_bytes();
    assert!(guid_eq(&firmware, &ACPI2));
    assert!(!guid_eq(&SMBIOS, &ACPI2));
}

#[test]
fn uefi_line_is_utf16_with_nul() {
    let units = uefi_units("Hi\u{e9}");
    assert_eq!(units, vec![0x48, 0x69, 0xe9, 0]);
    assert_eq!(write_uefi("ok"), Some(vec![0x6f, 0x6b, 0]));
}

#[test]
fn uefi_line_keeps_255_units() {
    let long: String = std::iter::repeat('x').take(300).collect();
    let units = write_uefi(&long).unwrap();
    assert_eq!(units.len(), 256);
    assert!(units[..255].iter().all(|&u| u == 0x78));
    assert_eq!(units[255], 0);
}

#[test]
fn uefi_line_refuses_nul_and_astral_text() {
    assert_eq!(write_uefi("a\0b"), None);
    assert_eq!(uefi_units("\u{1F600}"), vec![0xD83D, 0xDE00, 0]);
    assert_eq!(write_uefi("\u{1F600}"), None);
}

#[test]
fn console_routes_by_mode() {
    let mut console = ConsoleState::new();
    assert_eq!(console.mode(), ConsoleMode::BootUefi);
    match write_str(&console, "boot") {
        ConsoleRoute::Uefi(Some(units)) => assert_eq!(units, vec![0x62, 0x6f, 0x6f, 0x74, 0]),
        other => panic!("unexpected route {:?}", other),
    }
    match write_line(&console, "x") {
        (ConsoleRoute::Uefi(Some(a)), ConsoleRoute::Uefi(Some(b))) => {
            assert_eq!(a, vec![0x78, 0]);
            assert_eq!(b, vec![10, 0]);
        }
        other => panic!("unexpected routes {:?}", other),
    }
    console.switch_to_framebuffer_console();
    assert_eq!(console.mode(), ConsoleMode::RuntimeFramebuffer);
    assert!(matches!(write_str(&console, "runtime"), ConsoleRoute::Framebuffer));
    assert!(matches!(emergency_write(&console, "panic"), ConsoleRoute::Framebuffer));
}

fn screen(width: usize, height: usize, stride: usize) -> (Option<FramebufferInfo>, Vec<u32>) {
    let info = FramebufferInfo {
        base: 0x8000_0000,
        width,
        height,
        stride,
        bpp: 4,
        pixel_format: GopPixelFormat::Bgr,
    };
    (Some(info), vec![7u32; stride * height])
}

#[test]
fn fill_screen_leaves_scanline_padding() {
    let (info, mut pixels) = screen(3, 2, 4);
    fill_screen(&info, &mut pixels, 0x123456);
    assert_eq!(pixels, vec![0x123456, 0x123456, 0x123456, 7, 0x123456, 0x123456, 0x123456, 7]);
}

#[test]
fn display_status_is_green() {
    let (info, mut pixels) = screen(2, 2, 2);
    display_status(&info, &mut pixels);
    assert_eq!(pixels, vec![GREEN; 4]);
}

#[test]
fn test_pattern_has_four_quadrants() {
    let (info, mut pixels) = screen(4, 4, 5);
    display_test_pattern(&info, &mut pixels);
    let row = |y: usize| pixels[y * 5..y * 5 + 5].to_vec();
    assert_eq!(row(0), vec![RED, RED, GREEN, GREEN, 7]);
    assert_eq!(row(1), vec![RED, RED, GREEN, GREEN, 7]);
    assert_eq!(row(2), vec![BLUE, BLUE, YELLOW, YELLOW, 7]);
    assert_eq!(row(3), vec![BLUE, BLUE, YELLOW, YELLOW, 7]);
    assert_eq!(quadrant_color(4, 4, 3, 0), GREEN);
}

#[test]
fn set_pixel_uses_the_stride() {
    let (info, mut pixels) = screen(3, 3, 4);
    set_pixel(&info, &mut pixels, 1, 2, 0xAB);
    assert_eq!(pixels[2 * 4 + 1], 0xAB);
    let before = pixels.clone();
    set_pixel(&info, &mut pixels, 3, 0, 0xCD);
    set_pixel(&info, &mut pixels, 0, 3, 0xCD);
    assert_eq!(pixels, before);
}

#[test]
fn single_pixel_and_scanline_checks() {
    let (info, mut pixels) = screen(3, 2, 4);
    test_single_pixel(&info, &mut pixels);
    assert_eq!(pixels[0], RED);
    assert_eq!(pixels[1], 7);
    test_single_scanline(&info, &mut pixels);
    assert_eq!(pixels, vec![RED, RED, RED, 7, 7, 7, 7, 7]);
}

#[test]
fn no_framebuffer_changes_nothing() {
    let mut pixels = vec![1u32, 2, 3];
    fill_screen(&None, &mut pixels, 9);
    set_pixel(&None, &mut pixels, 0, 0, 9);
    display_test_pattern(&None, &mut pixels);
    assert_eq!(pixels, vec![1, 2, 3]);
    assert!(!is_available(&None));
}

#[test]
fn themes_match_their_palettes() {
    let dracula = get_dracula_theme();
    assert_eq!(dracula.background, TextColor::Blue);
    assert_eq!(dracula.prompt, TextColor::Yellow);
    assert_eq!(dracula.info, TextColor::Cyan);
    assert_eq!(dracula.error, TextColor::Red);
    assert_eq!(get_active_theme(), dracula);
    assert_eq!(light_theme().background, TextColor::White);
    assert_eq!(light_theme().foreground, TextColor::Black);
    assert_eq!(high_contrast_theme().background, TextColor::Black);
    assert_eq!(high_contrast_theme().foreground, TextColor::White);
}

#[test]
fn coalesce_sorts_and_merges_neighbours() {
    let mut ranges = vec![
        MemoryRange { base: 0x3000, length: 0x1000, mem_type: RustuxMemoryType::Available },
        MemoryRange { base: 0x0, length: 0x1000, mem_type: RustuxMemoryType::Available },
        MemoryRange { base: 0x1000, length: 0x2000, mem_type: RustuxMemoryType::Available },
        MemoryRange { base: 0x4000, length: 0x1000, mem_type: RustuxMemoryType::Reserved },
    ];
    coalesce_ranges(&mut ranges);
    assert_eq!(
        ranges,
        vec![
            MemoryRange { base: 0x0, length: 0x4000, mem_type: RustuxMemoryType::Available },
            MemoryRange { base: 0x4000, length: 0x1000, mem_type: RustuxMemoryType::Reserved },
        ]
    );
}

#[test]
fn efi_memory_types_map_to_kernel_kinds() {
    assert_eq!(RustuxMemoryType::from_efi(7), RustuxMemoryType::Available);
    assert_eq!(RustuxMemoryType::from_efi(1), RustuxMemoryType::Available);
    assert_eq!(RustuxMemoryType::from_efi(9), RustuxMemoryType::Reclaimable);
    assert_eq!(RustuxMemoryType::from_efi(11), RustuxMemoryType::Peripheral);
    assert_eq!(RustuxMemoryType::from_efi(0), RustuxMemoryType::Reserved);
    assert_eq!(RustuxMemoryType::from_efi(5), RustuxMemoryType::Reserved);
}
