use starsight::color::{Color, ColorAlpha};

#[test]
fn from_hex_roundtrip() {
    let hex = 9_843_885_u32;
    let color = Color::from_hex(hex);
    assert_eq!(150, color.r);
    assert_eq!(52, color.g);
    assert_eq!(173, color.b);
}

#[test]
fn from_css_hex_roundtrip() {
    let hex = "#9634AD";
    let color = Color::from_css_hex(hex).unwrap();
    assert_eq!(150, color.r);
    assert_eq!(52, color.g);
    assert_eq!(173, color.b);
}

#[test]
fn from_css_hex_short() {
    let hex = "#abc";
    let color = Color::from_css_hex(hex).unwrap();
    assert_eq!(0xAA, color.r);
}

#[test]
fn from_css_hex_invalid() {
    assert!(Color::from_css_hex("").is_none());
    assert!(Color::from_css_hex("#gggggg").is_none());
}

#[test]
fn color_with_alpha() {
    let color = Color::new(255, 0, 0);
    let alpha = color.with_alpha(128);
    assert_eq!(alpha.r, 255);
    assert_eq!(alpha.a, 128);
}

#[test]
fn color_to_css_hex() {
    let color = Color::new(150, 52, 173);
    assert_eq!(color.to_css_hex(), "#9634ad");
}

#[test]
fn color_red() {
    let c = Color::RED();
    assert_eq!(c.r, 255);
}

#[test]
fn color_green() {
    let c = Color::GREEN();
    assert_eq!(c.g, 255);
}

#[test]
fn color_blue() {
    let c = Color::BLUE();
    assert_eq!(c.b, 255);
}

#[test]
fn color_display() {
    let color = Color::new(150, 52, 173);
    let s = color.to_string();
    assert!(s.starts_with('#'));
}

#[test]
fn color_alpha_new() {
    let c = ColorAlpha::new(10, 20, 30, 40);
    assert_eq!(c.r, 10);
    assert_eq!(c.g, 20);
    assert_eq!(c.b, 30);
    assert_eq!(c.a, 40);
}

#[test]
fn color_alpha_from_hex() {
    let c = ColorAlpha::from_hex(0x80_FF_00_00);
    assert_eq!(c.a, 0x80);
    assert_eq!(c.r, 0xFF);
    assert_eq!(c.g, 0x00);
    assert_eq!(c.b, 0x00);
}

#[test]
fn color_alpha_constants() {
    assert_eq!(ColorAlpha::BLACK().r, 0);
    assert_eq!(ColorAlpha::BLACK().a, 255);
    assert_eq!(ColorAlpha::WHITE().r, 255);
    assert_eq!(ColorAlpha::WHITE().a, 255);
    assert_eq!(ColorAlpha::RED().r, 255);
    assert_eq!(ColorAlpha::RED().g, 0);
    assert_eq!(ColorAlpha::GREEN().g, 255);
    assert_eq!(ColorAlpha::BLUE().b, 255);
}

#[test]
fn color_alpha_without_alpha() {
    let c = ColorAlpha::new(10, 20, 30, 128);
    let plain = c.without_alpha();
    assert_eq!(plain.r, 10);
    assert_eq!(plain.g, 20);
    assert_eq!(plain.b, 30);
}

// ── further cases ────────────────────────────────────────────────────────────

#[test]
fn from_hex_ignores_bits_above_24() {
    assert_eq!(Color::from_hex(0xFF12_3456), Color::new(0x12, 0x34, 0x56));
}

#[test]
fn from_css_hex_without_hash_and_uppercase() {
    assert_eq!(Color::from_css_hex("9634AD"), Some(Color::new(150, 52, 173)));
    assert_eq!(Color::from_css_hex("9634ad"), Some(Color::new(150, 52, 173)));
    assert_eq!(Color::from_css_hex("ABC"), Some(Color::new(0xAA, 0xBB, 0xCC)));
}

#[test]
fn from_css_hex_short_form_doubles_each_digit() {
    assert_eq!(Color::from_css_hex("#1f9"), Color::from_css_hex("#11ff99"));
    assert_eq!(Color::from_css_hex("#1f9"), Some(Color::new(0x11, 0xFF, 0x99)));
}

#[test]
fn from_css_hex_rejects_a_sign() {
    assert!(Color::from_css_hex("#+12345").is_none());
    assert!(Color::from_css_hex("+12345").is_none());
    assert!(Color::from_css_hex("#+12").is_none());
    assert!(Color::from_css_hex("#-12345").is_none());
}

#[test]
fn from_css_hex_rejects_other_lengths_and_text() {
    assert!(Color::from_css_hex("#").is_none());
    assert!(Color::from_css_hex("#12345").is_none());
    assert!(Color::from_css_hex("#1234567").is_none());
    assert!(Color::from_css_hex("##abc").is_none());
    assert!(Color::from_css_hex("#ab").is_none());
    assert!(Color::from_css_hex("#abg").is_none());
    assert!(Color::from_css_hex("éé").is_none());
    assert!(Color::from_css_hex("ééé").is_none());
    assert!(Color::from_css_hex("#12 456").is_none());
}

#[test]
fn css_hex_text_parses_back() {
    for &(r, g, b) in &[(0u8, 0u8, 0u8), (255, 255, 255), (1, 16, 254), (150, 52, 173)] {
        let c = Color::new(r, g, b);
        assert_eq!(Color::from_css_hex(&c.to_css_hex()), Some(c));
    }
}

#[test]
fn to_css_hex_pads_with_zeros() {
    assert_eq!(Color::new(0, 1, 15).to_css_hex(), "#00010f");
    assert_eq!(Color::BLACK().to_string(), "#000000");
    assert_eq!(Color::WHITE().to_string(), "#ffffff");
}

#[test]
fn alpha_round_trips() {
    let c = Color::new(1, 2, 3);
    assert_eq!(c.with_alpha(77).without_alpha(), c);
    let ca = ColorAlpha::new(4, 5, 6, 7);
    assert_eq!(ca.without_alpha().with_alpha(ca.a), ca);
}

#[test]
fn packed_alpha_carries_packed_color() {
    let v = 0x80_12_34_56_u32;
    assert_eq!(ColorAlpha::from_hex(v).without_alpha(), Color::from_hex(v));
}

#[test]
fn darker_for_outline_matches_float_scaling_for_every_byte() {
    for v in 0u16..=255 {
        let c = v as u8;
        let expected = (f32::from(c) * 0.7) as u8;
        let d = Color::new(c, c, c).darker_for_outline();
        assert_eq!((d.r, d.g, d.b), (expected, expected, expected));
    }
}
