use starsight::color::Color;
use starsight::theme::{Theme, DEFAULT_DARK, DEFAULT_LIGHT};

#[test]
fn default_is_light() {
    let t = Theme::default();
    assert!(!t.is_dark);
    assert_eq!(t.background, DEFAULT_LIGHT().background);
}

#[test]
fn default_dark_constant() {
    assert!(DEFAULT_DARK().is_dark);
    assert_ne!(DEFAULT_DARK().background, DEFAULT_LIGHT().background);
}

#[test]
fn default_light_colors() {
    let t = DEFAULT_LIGHT();
    assert_eq!(t.background, Color::WHITE());
    assert_eq!(t.foreground, Color::new(0x33, 0x33, 0x33));
    assert_eq!(t.accent, Color::new(0x21, 0x96, 0xF3));
    assert_eq!(t.title, Color::new(0x22, 0x22, 0x22));
}

#[test]
fn default_dark_colors() {
    let t = DEFAULT_DARK();
    assert_eq!(t.background, Color::new(0x1E, 0x1E, 0x1E));
    assert_eq!(t.foreground, Color::new(0xE0, 0xE0, 0xE0));
    assert_eq!(t.title, Color::WHITE());
}
