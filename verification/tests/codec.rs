use firefly_test::color::Color;

#[test]
fn round_trip_lossless_white_and_black() {
    let white = Color::new(255, 255, 255);
    assert_eq!(white.to_rgb(), (255, 255, 255));
    let black = Color::new(0, 0, 0);
    assert_eq!(black.to_rgb(), (0, 0, 0));
}

#[test]
fn round_trip_lossless_small_channels() {
    // 8 = 0b0000_1000 survives the 5-bit narrowing; 4 survives the 6-bit one.
    let c = Color::new(8, 4, 8);
    assert_eq!(c.to_rgb(), (8, 4, 8));
}

#[test]
fn encode_exact_values() {
    assert_eq!(Color::new(255, 0, 0).to_rgb16(), 0xF800);
    assert_eq!(Color::new(0, 255, 0).to_rgb16(), 0x07E0);
    assert_eq!(Color::new(0, 0, 255).to_rgb16(), 0x001F);
    assert_eq!(Color::new(255, 255, 255).to_rgb16(), 0xFFFF);
}

#[test]
fn decode_exact_values() {
    assert_eq!(Color::from_rgb16(0xF800).to_rgb(), (255, 0, 0));
    assert_eq!(Color::from_rgb16(0x07E0).to_rgb(), (0, 255, 0));
    assert_eq!(Color::from_rgb16(0x001F).to_rgb(), (0, 0, 255));
}

#[test]
fn packed_lanes_most_significant_first() {
    let c = Color::from_rgb16(0xABCD);
    assert_eq!(c.hi, 0xAB);
    assert_eq!(c.lo, 0xCD);
    assert_eq!(c.to_rgb16(), 0xABCD);
}

#[test]
fn packed_round_trip_all_values() {
    for p in 0..=0xFFFFu16 {
        assert_eq!(Color::from_rgb16(p).to_rgb16(), p);
    }
}

#[test]
fn encode_decode_idempotent_on_lossy_triples() {
    // Narrowing loses bits of (1, 2, 3), but one round settles the value.
    let first = Color::new(1, 2, 3);
    let (r, g, b) = first.to_rgb();
    let second = Color::new(r, g, b);
    assert_eq!(second.to_rgb16(), first.to_rgb16());
    assert_eq!(second.to_rgb(), (r, g, b));
}

#[test]
fn decoded_triples_are_lossless() {
    for p in (0..=0xFFFFu16).step_by(257) {
        let (r, g, b) = Color::from_rgb16(p).to_rgb();
        assert_eq!(Color::new(r, g, b).to_rgb16(), p);
    }
}
