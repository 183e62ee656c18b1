//! Built-in categorical palettes and palette cycling.
//!
//! Marks that draw one color per group, slice or wedge cycle through a
//! palette: item `i` gets entry `i mod len`. When the caller gives no palette
//! the mark falls back to one of the built-in ones below.
use crate::color::{rgb24, Color};
use vstd::prelude::*;

verus! {

/// Entry `i mod len` of a non-empty palette.
pub open spec fn cycled(palette: Seq<Color>, i: int) -> Color
    recommends
        palette.len() > 0,
{
    palette[i % (palette.len() as int)]
}

/// Six perceptually-distinct hues, readable on light and dark themes alike:
/// the default slice colors of a pie chart.
pub open spec fn pie_palette() -> Seq<Color> {
    seq![
        rgb24(0x3377BB),
        rgb24(0xEE7733),
        rgb24(0x33AA66),
        rgb24(0xCC3366),
        rgb24(0xAA44AA),
        rgb24(0x99AABB),
    ]
}

/// Tableau 10 (vibrant): the default colors of polar wedge and bar marks.
pub open spec fn tableau10() -> Seq<Color> {
    seq![
        rgb24(0x4E79A7),
        rgb24(0xF28E2B),
        rgb24(0xE15759),
        rgb24(0x76B7B2),
        rgb24(0x59A14F),
        rgb24(0xEDC948),
        rgb24(0xB07AA1),
        rgb24(0xFF9DA7),
        rgb24(0x9C755F),
        rgb24(0xBAB0AC),
    ]
}

/// Eight muted hues: the default wedge colors of arc marks.
pub open spec fn arc_palette() -> Seq<Color> {
    seq![
        rgb24(0x4C72B0),
        rgb24(0xDD8452),
        rgb24(0x55A868),
        rgb24(0xC44E52),
        rgb24(0x8B8B6B),
        rgb24(0x9375A0),
        rgb24(0x8C5C3D),
        rgb24(0xDA8BC3),
    ]
}

/// The six default pie-slice colors.
pub fn default_palette() -> (p: Vec<Color>)
    ensures
        p@ == pie_palette(),
{
    let mut p = Vec::new();
    p.push(Color::from_hex(0x3377BB));
    p.push(Color::from_hex(0xEE7733));
    p.push(Color::from_hex(0x33AA66));
    p.push(Color::from_hex(0xCC3366));
    p.push(Color::from_hex(0xAA44AA));
    p.push(Color::from_hex(0x99AABB));
    assert(p@ =~= pie_palette());
    p
}

/// The default 10-color cycle of polar wedge and bar marks (Tableau 10).
#[allow(non_snake_case)]
pub fn POLAR_DEFAULT() -> (p: Vec<Color>)
    ensures
        p@ == tableau10(),
{
    let mut p = Vec::new();
    p.push(Color::from_hex(0x4E79A7));
    p.push(Color::from_hex(0xF28E2B));
    p.push(Color::from_hex(0xE15759));
    p.push(Color::from_hex(0x76B7B2));
    p.push(Color::from_hex(0x59A14F));
    p.push(Color::from_hex(0xEDC948));
    p.push(Color::from_hex(0xB07AA1));
    p.push(Color::from_hex(0xFF9DA7));
    p.push(Color::from_hex(0x9C755F));
    p.push(Color::from_hex(0xBAB0AC));
    assert(p@ =~= tableau10());
    p
}

/// The default 8-color cycle of arc marks.
#[allow(non_snake_case)]
pub fn DEFAULT_PALETTE() -> (p: Vec<Color>)
    ensures
        p@ == arc_palette(),
{
    let mut p = Vec::new();
    p.push(Color::from_hex(0x4C72B0));
    p.push(Color::from_hex(0xDD8452));
    p.push(Color::from_hex(0x55A868));
    p.push(Color::from_hex(0xC44E52));
    p.push(Color::from_hex(0x8B8B6B));
    p.push(Color::from_hex(0x9375A0));
    p.push(Color::from_hex(0x8C5C3D));
    p.push(Color::from_hex(0xDA8BC3));
    assert(p@ =~= arc_palette());
    p
}

/// The color of item `i` when cycling through `palette`, or `None` when the
/// palette is empty (the caller then uses its fallback color).
pub fn cycle_color(palette: &[Color], i: usize) -> (c: Option<Color>)
    ensures
        palette@.len() == 0 ==> c is None,
        palette@.len() > 0 ==> c == Some(cycled(palette@, i as int)),
{
    if palette.len() == 0 {
        None
    } else {
        Some(palette[i % palette.len()])
    }
}

/// The color of bar `i` of a bar mark with `n_values` values: without a
/// color list, blue; a single color is broadcast to every bar; a list with
/// one color per value gives bar `i` its own; any other list gives every bar
/// its first color, or blue when it is empty.
pub open spec fn bar_color(colors: Option<Seq<Color>>, n_values: nat, i: int) -> Color {
    match colors {
        None => rgb24(0x0000FF),
        Some(cs) => if cs.len() == 1 {
            cs[0]
        } else if cs.len() == n_values {
            cs[i]
        } else if cs.len() > 0 {
            cs[0]
        } else {
            rgb24(0x0000FF)
        },
    }
}

/// Per-bar color lookup of a bar mark, robust against length mismatches.
pub fn bar_color_at(colors: Option<&Vec<Color>>, n_values: usize, i: usize) -> (c: Color)
    requires
        colors matches Some(v) && v.len() == n_values && v.len() != 1 ==> i < n_values,
    ensures
        c == bar_color(
            match colors {
                Some(v) => Some(v@),
                None => None,
            },
            n_values as nat,
            i as int,
        ),
{
    match colors {
        None => Color::BLUE(),
        Some(cs) => {
            if cs.len() == 1 {
                cs[0]
            } else if cs.len() == n_values {
                cs[i]
            } else if cs.len() > 0 {
                cs[0]
            } else {
                Color::BLUE()
            }
        },
    }
}

/// The color of point `i` of a point mark with `n_points` points: without a
/// color list, blue; a single color is broadcast to every point; a list with
/// one color per point gives point `i` its own; a list of any other length
/// falls back to the default, blue.
pub open spec fn point_color(colors: Option<Seq<Color>>, n_points: nat, i: int) -> Color {
    match colors {
        None => rgb24(0x0000FF),
        Some(cs) => if cs.len() == 1 {
            cs[0]
        } else if cs.len() == n_points {
            cs[i]
        } else {
            rgb24(0x0000FF)
        },
    }
}

/// Per-point color lookup of a point mark; length-mismatched lists fall back
/// to blue rather than panic.
pub fn point_color_at(colors: Option<&Vec<Color>>, n_points: usize, i: usize) -> (c: Color)
    requires
        colors matches Some(v) && v.len() == n_points && v.len() != 1 ==> i < n_points,
    ensures
        c == point_color(
            match colors {
                Some(v) => Some(v@),
                None => None,
            },
            n_points as nat,
            i as int,
        ),
{
    match colors {
        None => Color::BLUE(),
        Some(cs) => {
            if cs.len() == 1 {
                cs[0]
            } else if cs.len() == n_points {
                cs[i]
            } else {
                Color::BLUE()
            }
        },
    }
}

/// What a bar mark's color list gives bar `i` of `n` bars: blue without a
/// list, the one color of a one-color list, color `i` of a list with one
/// color per bar, the first color of any other non-empty list, and blue for
/// an empty list.
pub proof fn bar_colors_follow_the_list(cs: Seq<Color>, n: nat, i: int)
    ensures
        bar_color(None, n, i) == (Color { r: 0, g: 0, b: 255 }),
        cs.len() == 1 ==> bar_color(Some(cs), n, i) == cs[0],
        cs.len() == n && n != 1 && 0 <= i < n ==> bar_color(Some(cs), n, i) == cs[i],
        cs.len() != n && cs.len() > 1 ==> bar_color(Some(cs), n, i) == cs[0],
        cs.len() == 0 && n != 0 ==> bar_color(Some(cs), n, i) == (Color { r: 0, g: 0, b: 255 }),
{
}

/// What a point mark's color list gives point `i` of `n` points: blue
/// without a list, the one color of a one-color list, color `i` of a list
/// with one color per point, and blue for a list of any other length.
pub proof fn point_colors_follow_the_list(cs: Seq<Color>, n: nat, i: int)
    ensures
        point_color(None, n, i) == (Color { r: 0, g: 0, b: 255 }),
        cs.len() == 1 ==> point_color(Some(cs), n, i) == cs[0],
        cs.len() == n && n != 1 && 0 <= i < n ==> point_color(Some(cs), n, i) == cs[i],
        cs.len() != n && cs.len() != 1 ==> point_color(Some(cs), n, i) == (Color {
            r: 0,
            g: 0,
            b: 255,
        }),
{
}

/// Cycling is periodic: item `i` and item `i + len` get the same color.
pub proof fn cycle_is_periodic(palette: Seq<Color>, i: nat)
    requires
        palette.len() > 0,
    ensures
        cycled(palette, (i + palette.len()) as int) == cycled(palette, i as int),
        cycled(palette, i as int) == palette[(i % palette.len()) as int],
{
    let n = palette.len() as int;
    assert((i + n) % n == (i as int) % n) by (nonlinear_arith)
        requires
            n > 0,
            i >= 0,
    {
        vstd::arithmetic::div_mod::lemma_mod_add_multiples_vanish(i as int, n);
    }
}

/// Every item gets a color of the palette.
pub proof fn cycle_stays_in_palette(palette: Seq<Color>, i: nat)
    requires
        palette.len() > 0,
    ensures
        palette.contains(cycled(palette, i as int)),
{
    let n = palette.len() as int;
    let k = (i as int) % n;
    assert(0 <= k < n) by (nonlinear_arith)
        requires
            n > 0,
            k == (i as int) % n,
    ;
    assert(palette[k] == cycled(palette, i as int));
}

} // verus!
