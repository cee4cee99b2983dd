use watch::segment::{build_segment, com_words, digit, lcd_to_mcu, segment_pin, Seg, BLANK};

#[test]
fn lcd_pins_map_to_mcu_lines() {
    assert_eq!(lcd_to_mcu(0), 16);
    assert_eq!(lcd_to_mcu(4), 17);
    assert_eq!(lcd_to_mcu(5), 2);
    assert_eq!(lcd_to_mcu(13), 13);
    assert_eq!(lcd_to_mcu(23), 3);
}

#[test]
fn build_segment_bits() {
    assert_eq!(build_segment(0, 0), 1 << 16);
    assert_eq!(build_segment(1, 5), 1 << 34);
    assert_eq!(build_segment(2, 4), 1 << 81);
}

#[test]
fn digit_one_lights_b_and_c() {
    let b = segment_pin(1, Seg::B);
    let c = segment_pin(1, Seg::C);
    assert_eq!(b, (0, 2));
    assert_eq!(c, (1, 2));
    assert_eq!(digit(1, 1), build_segment(0, 2) | build_segment(1, 2));
}

#[test]
fn digit_eight_lights_all_segments() {
    let mut all = BLANK;
    for s in [Seg::A, Seg::B, Seg::C, Seg::D, Seg::E, Seg::F, Seg::G] {
        let (com, pin) = segment_pin(5, s);
        all |= build_segment(com, pin);
    }
    assert_eq!(digit(5, 8), all);
    assert_eq!(all.count_ones(), 7);
}

#[test]
fn digit_zero_leaves_g_dark() {
    let (com, pin) = segment_pin(3, Seg::G);
    assert_eq!(digit(3, 0) & build_segment(com, pin), 0);
    assert_eq!(digit(3, 0).count_ones(), 6);
}

#[test]
fn com_words_split_the_buffer() {
    let seg: u128 = (0x3333_3333u128 << 64) | (0x2222_2222u128 << 32) | 0x1111_1111;
    assert_eq!(com_words(seg), (0x1111_1111, 0x2222_2222, 0x3333_3333));
    assert_eq!(com_words(BLANK), (0, 0, 0));
    assert_eq!(com_words(1 << 95), (0, 0, 0x8000_0000));
}
