use raytracer::color::Color;

#[test]
fn new_keeps_the_channels() {
    let c = Color::new(12, 200, 7);
    assert_eq!(c.r, 12);
    assert_eq!(c.g, 200);
    assert_eq!(c.b, 7);
}

#[test]
fn black_is_all_zero() {
    assert_eq!(Color::black(), Color::new(0, 0, 0));
}

#[test]
fn addition_saturates_at_white() {
    assert_eq!(
        Color::new(250, 250, 250) + Color::new(10, 10, 10),
        Color::new(255, 255, 255)
    );
}

#[test]
fn addition_saturates_each_channel_alone() {
    assert_eq!(
        Color::new(200, 10, 255) + Color::new(100, 20, 1),
        Color::new(255, 30, 255)
    );
}

#[test]
fn addition_below_the_limit_is_exact() {
    assert_eq!(
        Color::new(1, 2, 3) + Color::new(10, 20, 30),
        Color::new(11, 22, 33)
    );
    assert_eq!(
        Color::new(255, 0, 128) + Color::new(0, 255, 127),
        Color::new(255, 255, 255)
    );
}

#[test]
fn addition_of_black_changes_nothing() {
    let c = Color::new(9, 99, 199);
    assert_eq!(c + Color::black(), c);
    assert_eq!(Color::black() + c, c);
}

#[test]
fn addition_commutes() {
    let a = Color::new(200, 3, 77);
    let b = Color::new(100, 4, 200);
    assert_eq!(a + b, b + a);
}

#[test]
fn to_hex_packs_red_green_blue() {
    assert_eq!(Color::new(0x12, 0x34, 0x56).to_hex(), 0x123456);
    assert_eq!(Color::new(255, 255, 102).to_hex(), 0xFFFF66);
    assert_eq!(Color::black().to_hex(), 0);
    assert_eq!(Color::new(255, 255, 255).to_hex(), 0xFFFFFF);
    assert_eq!(Color::new(0, 0, 1).to_hex(), 1);
    assert_eq!(Color::new(0, 1, 0).to_hex(), 256);
    assert_eq!(Color::new(1, 0, 0).to_hex(), 65536);
}

#[test]
fn from_hex_unpacks_red_green_blue() {
    assert_eq!(Color::from_hex(0x123456), Color::new(0x12, 0x34, 0x56));
    assert_eq!(Color::from_hex(0), Color::black());
    assert_eq!(Color::from_hex(0xFFFFFF), Color::new(255, 255, 255));
}

#[test]
fn from_hex_ignores_the_top_byte() {
    assert_eq!(Color::from_hex(0xAB123456), Color::new(0x12, 0x34, 0x56));
    assert_eq!(Color::from_hex(0xFF000000), Color::black());
}

#[test]
fn hex_round_trip() {
    let c = Color::new(205, 170, 125);
    assert_eq!(Color::from_hex(c.to_hex()), c);
    assert_eq!(Color::from_hex(0x00C0FFEE).to_hex(), 0xC0FFEE);
    assert_eq!(Color::from_hex(0x7FC0FFEE).to_hex(), 0xC0FFEE);
}

#[test]
fn blend_multiplies_fractions_of_255() {
    assert_eq!(
        Color::new(255, 128, 0).blend(Color::new(255, 255, 255)),
        Color::new(255, 128, 0)
    );
    assert_eq!(
        Color::new(100, 200, 50).blend(Color::new(128, 64, 255)),
        Color::new(50, 50, 50)
    );
    assert_eq!(
        Color::new(254, 1, 16).blend(Color::new(254, 254, 16)),
        Color::new(253, 0, 1)
    );
}

#[test]
fn blend_with_black_is_black() {
    assert_eq!(
        Color::new(255, 255, 255).blend(Color::black()),
        Color::black()
    );
}
