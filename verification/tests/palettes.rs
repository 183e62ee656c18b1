use starsight::color::Color;
use starsight::palette::{bar_color_at, cycle_color, point_color_at, default_palette, DEFAULT_PALETTE, POLAR_DEFAULT};

#[test]
fn pie_default_palette_has_six_hues() {
    let p = default_palette();
    assert_eq!(p.len(), 6);
    assert_eq!(p[0], Color::from_hex(0x3377BB));
    assert_eq!(p[5], Color::from_hex(0x99AABB));
}

#[test]
fn polar_default_is_tableau10() {
    let p = POLAR_DEFAULT();
    assert_eq!(p.len(), 10);
    assert_eq!(p[0], Color::new(0x4E, 0x79, 0xA7));
    assert_eq!(p[9], Color::new(0xBA, 0xB0, 0xAC));
}

#[test]
fn arc_default_palette_has_eight_hues() {
    let p = DEFAULT_PALETTE();
    assert_eq!(p.len(), 8);
    assert_eq!(p[0], Color::from_hex(0x4C72B0));
    assert_eq!(p[7], Color::from_hex(0xDA8BC3));
}

#[test]
fn cycling_wraps_around() {
    let p = vec![Color::RED(), Color::GREEN(), Color::BLUE()];
    assert_eq!(cycle_color(&p, 0), Some(Color::RED()));
    assert_eq!(cycle_color(&p, 2), Some(Color::BLUE()));
    assert_eq!(cycle_color(&p, 3), Some(Color::RED()));
    assert_eq!(cycle_color(&p, 7), Some(Color::GREEN()));
}

#[test]
fn cycling_an_empty_palette_gives_none() {
    let p: Vec<Color> = Vec::new();
    assert_eq!(cycle_color(&p, 0), None);
    assert_eq!(cycle_color(&p, 5), None);
}

#[test]
fn bar_colors_broadcast_and_fall_back() {
    let one = vec![Color::RED()];
    let three = vec![Color::RED(), Color::GREEN(), Color::BLUE()];
    let two = vec![Color::GREEN(), Color::RED()];
    let none: Vec<Color> = Vec::new();
    assert_eq!(bar_color_at(None, 3, 1), Color::BLUE());
    assert_eq!(bar_color_at(Some(&one), 3, 2), Color::RED());
    assert_eq!(bar_color_at(Some(&three), 3, 1), Color::GREEN());
    assert_eq!(bar_color_at(Some(&two), 3, 2), Color::GREEN());
    assert_eq!(bar_color_at(Some(&none), 3, 0), Color::BLUE());
}

#[test]
fn point_colors_follow_the_broadcast_rule() {
    let one = vec![Color::RED()];
    let per_point = vec![Color::RED(), Color::GREEN(), Color::WHITE()];
    let mismatched = vec![Color::RED(), Color::GREEN()];
    let empty: Vec<Color> = vec![];
    assert_eq!(point_color_at(None, 3, 1), Color::BLUE());
    assert_eq!(point_color_at(Some(&one), 3, 2), Color::RED());
    assert_eq!(point_color_at(Some(&per_point), 3, 2), Color::WHITE());
    assert_eq!(point_color_at(Some(&mismatched), 3, 1), Color::BLUE());
    assert_eq!(point_color_at(Some(&mismatched), 3, 0), Color::BLUE());
    assert_eq!(point_color_at(Some(&empty), 3, 0), Color::BLUE());
    // Bars keep the first color of a mismatched list.
    assert_eq!(bar_color_at(Some(&mismatched), 3, 1), Color::RED());
}
