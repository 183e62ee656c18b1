//! Themes: the colors a figure uses for background, text, grid and axes.
use crate::color::{rgb24, Color};
use vstd::prelude::*;

verus! {

/// The colors of a figure, by role.
///
/// - `background`: plot background
/// - `foreground`: default text/label color
/// - `grid`: grid line color
/// - `accent`: primary accent color
#[derive(Debug, Clone, Copy)]
pub struct Theme {
    /// Background color for the plot area.
    pub background: Color,
    /// Default foreground color for text and labels.
    pub foreground: Color,
    /// Color for grid lines.
    pub grid: Color,
    /// Primary accent color.
    pub accent: Color,
    /// Color for axis lines and ticks.
    pub axis: Color,
    /// Color for tick labels.
    pub tick_label: Color,
    /// Color for title.
    pub title: Color,
    /// Whether this is a dark theme.
    pub is_dark: bool,
}

/// The default light theme: white background, dark text.
pub open spec fn light_theme() -> Theme {
    Theme {
        background: rgb24(0xFFFFFF),
        foreground: rgb24(0x333333),
        grid: rgb24(0xDDDDDD),
        accent: rgb24(0x2196F3),
        axis: rgb24(0x666666),
        tick_label: rgb24(0x555555),
        title: rgb24(0x222222),
        is_dark: false,
    }
}

/// The default dark theme: dark background, light text.
pub open spec fn dark_theme() -> Theme {
    Theme {
        background: rgb24(0x1E1E1E),
        foreground: rgb24(0xE0E0E0),
        grid: rgb24(0x3A3A3A),
        accent: rgb24(0x64B5F6),
        axis: rgb24(0xAAAAAA),
        tick_label: rgb24(0xBBBBBB),
        title: rgb24(0xFFFFFF),
        is_dark: true,
    }
}

/// Default light theme (white background, dark text).
#[allow(non_snake_case)]
pub fn DEFAULT_LIGHT() -> (t: Theme)
    ensures
        t == light_theme(),
{
    Theme {
        background: Color::WHITE(),
        foreground: Color::from_hex(0x333333),
        grid: Color::from_hex(0xDDDDDD),
        accent: Color::from_hex(0x2196F3),
        axis: Color::from_hex(0x666666),
        tick_label: Color::from_hex(0x555555),
        title: Color::from_hex(0x222222),
        is_dark: false,
    }
}

/// Default dark theme (dark background, light text).
#[allow(non_snake_case)]
pub fn DEFAULT_DARK() -> (t: Theme)
    ensures
        t == dark_theme(),
{
    Theme {
        background: Color::from_hex(0x1E1E1E),
        foreground: Color::from_hex(0xE0E0E0),
        grid: Color::from_hex(0x3A3A3A),
        accent: Color::from_hex(0x64B5F6),
        axis: Color::from_hex(0xAAAAAA),
        tick_label: Color::from_hex(0xBBBBBB),
        title: Color::from_hex(0xFFFFFF),
        is_dark: true,
    }
}

impl Default for Theme {
    /// The default theme is the light one.
    fn default() -> (t: Theme)
        ensures
            t == light_theme(),
    {
        DEFAULT_LIGHT()
    }
}

} // verus!
