use receipt_printer::escpos::{
    build_cut, build_drawer_kick, build_self_test_page, initialize, set_alignment, set_bold,
    set_text_size, Alignment, TextSize,
};

#[test]
fn drawer_kick_is_fixed_five_bytes() {
    let k = build_drawer_kick();
    assert_eq!(k.len(), 5);
    assert_eq!(k, vec![0x1B, 0x70, 0x00, 0x19, 0xFA]);
}

#[test]
fn encoding_is_deterministic() {
    assert_eq!(build_self_test_page(), build_self_test_page());
    assert_eq!(build_drawer_kick(), build_drawer_kick());
}

#[test]
fn single_commands() {
    assert_eq!(initialize(), vec![0x1B, 0x40]);
    assert_eq!(set_alignment(Alignment::Left), vec![0x1B, 0x61, 0x00]);
    assert_eq!(set_alignment(Alignment::Center), vec![0x1B, 0x61, 0x01]);
    assert_eq!(set_alignment(Alignment::Right), vec![0x1B, 0x61, 0x02]);
    assert_eq!(set_bold(true), vec![0x1B, 0x45, 0x01]);
    assert_eq!(set_bold(false), vec![0x1B, 0x45, 0x00]);
    assert_eq!(set_text_size(TextSize::Normal), vec![0x1D, 0x21, 0x00]);
    assert_eq!(set_text_size(TextSize::DoubleWidthHeight), vec![0x1D, 0x21, 0x11]);
    assert_eq!(build_cut(true), vec![0x1D, 0x56, 0x01]);
    assert_eq!(build_cut(false), vec![0x1D, 0x56, 0x00]);
}

#[test]
fn self_test_page_layout() {
    let mut expected: Vec<u8> = vec![0x1B, 0x40, 0x1B, 0x61, 0x01, 0x1B, 0x45, 0x01, 0x1D, 0x21, 0x11];
    expected.extend_from_slice(b"PRINTER TEST\n");
    expected.extend_from_slice(&[0x1D, 0x21, 0x00, 0x1B, 0x45, 0x00]);
    expected.extend_from_slice(b"\n------------------------\nNew Era Cafeteria POS\nXprinter M804 Connected\n------------------------\n\nIf you can read this,\nyour printer is working!\n\n\n\n");
    expected.extend_from_slice(&[0x1D, 0x56, 0x01]);
    assert_eq!(build_self_test_page(), expected);
}
