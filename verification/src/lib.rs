//! starsight: the integer- and text-level core of a scientific plotting library.
//!
//! Modules:
//! - [`color`]: `Color` and `ColorAlpha`, packed-hex and CSS-hex conversions.
//! - [`theme`]: `Theme` with the default light and dark themes.
//! - [`error`]: `StarsightError`.
//! - [`paths`]: stroke cap and join styles.
//! - [`vectors`]: `SvgBackend`, the SVG document builder.
//! - [`palette`]: built-in categorical palettes and palette cycling.
//! - [`kinds`]: the option enums of colormaps, marks and statistics.
//! - [`scales`]: `CategoricalScale`.
//! - [`contour`]: the marching-squares cell classification.
//! - [`ticks`]: π-fraction labels of radian axes.
//! - [`text`]: decimal text of integers.

pub mod color;
pub mod contour;
pub mod error;
pub mod kinds;
pub mod palette;
pub mod paths;
pub mod scales;
pub mod text;
pub mod theme;
pub mod ticks;
pub mod vectors;
