use raytracer::color::Color;

#[test]
fn new_keeps_values_in_range() {
    let c = Color::new(0, 90, 150);
    assert_eq!((c.r, c.g, c.b), (0, 90, 150));
}

#[test]
fn new_clamps_each_channel() {
    let c = Color::new(300, -5, 255);
    assert_eq!((c.r, c.g, c.b), (255, 0, 255));
    let d = Color::new(i32::MIN, i32::MAX, 256);
    assert_eq!((d.r, d.g, d.b), (0, 255, 255));
}

#[test]
fn from_hex_unpacks_channels() {
    let c = Color::from_hex(0x12_34_56);
    assert_eq!((c.r, c.g, c.b), (0x12, 0x34, 0x56));
}

#[test]
fn from_hex_ignores_top_byte() {
    assert_eq!(Color::from_hex(0xAB_12_34_56), Color::from_hex(0x12_34_56));
}

#[test]
fn to_hex_packs_channels() {
    assert_eq!(Color::new(255, 0, 17).to_hex(), 0xFF0011);
    assert_eq!(Color::new(0, 0, 0).to_hex(), 0);
    assert_eq!(Color::new(255, 255, 255).to_hex(), 0xFFFFFF);
}

#[test]
fn hex_round_trip() {
    for hex in [0u32, 1, 0xFF, 0x100, 0xFFFF, 0x10000, 0x0A0B0C, 0xFFFFFF] {
        assert_eq!(Color::from_hex(hex).to_hex(), hex);
    }
    let c = Color::new(1, 2, 3);
    assert_eq!(Color::from_hex(c.to_hex()), c);
}

#[test]
fn packing_keeps_low_24_bits() {
    assert_eq!(Color::from_hex(0xFF00_0001).to_hex(), 1);
}

#[test]
fn addition_saturates() {
    let a = Color::new(200, 10, 255);
    let b = Color::new(100, 20, 1);
    assert_eq!(a + b, Color::new(255, 30, 255));
}

#[test]
fn addition_commutes_and_black_is_neutral() {
    let a = Color::new(200, 10, 77);
    let b = Color::new(100, 20, 1);
    assert_eq!(a + b, b + a);
    assert_eq!(a + Color::new(0, 0, 0), a);
}

#[test]
fn from_u32_is_from_hex() {
    let c: Color = 0x00FF7Fu32.into();
    assert_eq!(c, Color::new(0, 255, 127));
    assert_eq!(Color::from(0x010203u32), Color::new(1, 2, 3));
}

#[test]
fn colors_compare_by_channels() {
    assert_eq!(Color::new(1, 2, 3), Color::new(1, 2, 3));
    assert_ne!(Color::new(1, 2, 3), Color::new(1, 2, 4));
}
