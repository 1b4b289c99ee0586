use rustux::acpi::{
    find_madt, is_madt, madt_walk_ends, override_description, override_pixel, parse_madt_for_irq1,
    root_table_address, root_table_entries, verify_rsdp_checksum, Irq1Override,
};

fn with_checksum(mut rsdp: Vec<u8>) -> Vec<u8> {
    let sum: u8 = rsdp[..20].iter().fold(0u8, |a, b| a.wrapping_add(*b));
    rsdp[8] = rsdp[8].wrapping_sub(sum);
    rsdp
}

fn rsdp(revision: u8, rsdt: u32, xsdt: u64) -> Vec<u8> {
    let mut r = vec![0u8; 36];
    r[..8].copy_from_slice(b"RSD PTR ");
    r[15] = revision;
    r[16..20].copy_from_slice(&rsdt.to_le_bytes());
    r[24..32].copy_from_slice(&xsdt.to_le_bytes());
    with_checksum(r)
}

fn madt(entries: &[&[u8]]) -> Vec<u8> {
    let mut m = vec![0u8; 44];
    m[..4].copy_from_slice(b"APIC");
    for e in entries {
        m.extend_from_slice(e);
    }
    let len = m.len() as u32;
    m[4..8].copy_from_slice(&len.to_le_bytes());
    m.extend_from_slice(&[0u8; 10]);
    m
}

#[test]
fn rsdp_checksum_accepts_sum_zero_only() {
    let good = rsdp(0, 0x1000, 0);
    assert!(verify_rsdp_checksum(&good));
    let mut bad = good.clone();
    bad[9] = bad[9].wrapping_add(1);
    assert!(!verify_rsdp_checksum(&bad));
}

#[test]
fn root_table_is_xsdt_from_revision_two() {
    assert_eq!(root_table_address(&rsdp(2, 0x1000, 0x2_0000_0000)), Some((0x2_0000_0000, true)));
    assert_eq!(root_table_address(&rsdp(0, 0x1000, 0x2_0000_0000)), Some((0x1000, false)));
    assert_eq!(root_table_address(&rsdp(2, 0x1000, 0)), None);
    let mut bad = rsdp(0, 0x1000, 0);
    bad[0] ^= 1;
    assert_eq!(root_table_address(&bad), None);
}

#[test]
fn root_table_entries_by_width() {
    let mut t = vec![0u8; 36];
    t[4..8].copy_from_slice(&(36u32 + 16).to_le_bytes());
    t.extend_from_slice(&0x1111_2222_3333_4444u64.to_le_bytes());
    t.extend_from_slice(&0x5555u64.to_le_bytes());
    assert_eq!(root_table_entries(&t, true), vec![0x1111_2222_3333_4444, 0x5555]);
    assert_eq!(root_table_entries(&t, false), vec![0x3333_4444, 0x1111_2222, 0x5555, 0]);
}

#[test]
fn madt_found_among_entries() {
    assert!(is_madt(b"APIC"));
    assert!(!is_madt(b"FACP"));
    let entries = vec![0, 0x100, 0x200, 0x300];
    let sigs = vec![*b"APIC", *b"FACP", *b"APIC", *b"APIC"];
    assert_eq!(find_madt(&entries, &sigs), Some(0x200));
    assert_eq!(find_madt(&vec![0x100], &vec![*b"HPET"]), None);
}

#[test]
fn irq1_override_read_from_madt() {
    let lapic: &[u8] = &[0, 8, 0, 0, 1, 0, 0, 0];
    let other_irq: &[u8] = &[2, 10, 0, 0, 0, 0, 0, 0, 0, 0];
    let irq1: &[u8] = &[2, 10, 0, 1, 2, 0, 0, 0, 0x0A, 0];
    let m = madt(&[lapic, other_irq, irq1]);
    assert!(madt_walk_ends(&m));
    assert_eq!(parse_madt_for_irq1(&m), Irq1Override { gsi: 2, active_low: true, level_triggered: true });
}

#[test]
fn madt_without_override_gives_default() {
    let lapic: &[u8] = &[0, 8, 0, 0, 1, 0, 0, 0];
    let m = madt(&[lapic]);
    assert!(madt_walk_ends(&m));
    assert_eq!(parse_madt_for_irq1(&m), Irq1Override::default_override());
    assert_eq!(Irq1Override::default_override(), Irq1Override { gsi: 1, active_low: false, level_triggered: false });
}

#[test]
fn madt_walk_stops_on_zero_length_entry() {
    let broken: &[u8] = &[0, 0, 0, 0];
    let m = madt(&[broken]);
    assert!(!madt_walk_ends(&m));
    let irq1_first: &[u8] = &[2, 10, 0, 1, 9, 0, 0, 0, 0, 0];
    let m = madt(&[irq1_first, broken]);
    assert!(madt_walk_ends(&m));
    assert_eq!(parse_madt_for_irq1(&m), Irq1Override { gsi: 9, active_low: false, level_triggered: false });
}

#[test]
fn override_report_text_and_pixel() {
    let d = Irq1Override::default_override();
    assert_eq!(override_description(d), b"IRQ1 Override: None (default GSI=1)\n".to_vec());
    assert_eq!(override_pixel(d), (0x62, 0x62, 0x62));
    let o = Irq1Override { gsi: 2, active_low: false, level_triggered: true };
    assert_eq!(override_description(o), b"IRQ1 Override: GSI 2 ActiveHigh Level\n".to_vec());
    assert_eq!(override_pixel(o), (0xFF, 0xA6, 0x00));
    let far = Irq1Override { gsi: 12, active_low: true, level_triggered: false };
    assert_eq!(override_description(far), b"IRQ1 Override: GSI > ActiveLow Edge\n".to_vec());
}
