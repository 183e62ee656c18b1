//! Stroke styles shared by every backend: how stroke ends and corners look.
use vstd::prelude::*;

verus! {

/// How a stroke ends at unclosed path endpoints.
#[derive(Debug, Clone, Copy, PartialEq, Eq, Default, Structural)]
pub enum LineCap {
    /// Flat cut at the endpoint (default).
    #[default]
    Butt,
    /// Semicircle extending beyond the endpoint by half the stroke width.
    Round,
    /// Square extending beyond the endpoint by half the stroke width.
    Square,
}

/// How a stroke joins two adjacent path segments.
#[derive(Debug, Clone, Copy, PartialEq, Eq, Default, Structural)]
pub enum LineJoin {
    /// Sharp point (default), constrained by the miter limit.
    #[default]
    Miter,
    /// Circular arc.
    Round,
    /// Flat cut at the corner.
    Bevel,
}

} // verus!
