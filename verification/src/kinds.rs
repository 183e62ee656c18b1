//! Option enums: colormap classes, legend glyphs, orientations and the
//! rendering modes of marks and statistics.
use vstd::prelude::*;

verus! {

/// Classification of colormaps.
#[derive(Debug, Clone, Copy, PartialEq, Eq, Structural)]
pub enum ColormapKind {
    /// Single-hue gradient (e.g., viridis, plasma).
    Sequential,
    /// Two-hue gradient with a neutral middle (e.g., coolwarm, rdbu).
    Diverging,
    /// Wraps around (e.g., hsv, phase).
    Cyclic,
    /// Categorical colors with no ordering (e.g., set1, tableau10).
    Qualitative,
}

/// Visual sample drawn next to a legend entry's label.
#[derive(Clone, Copy, Debug, PartialEq, Eq, Structural)]
#[non_exhaustive]
pub enum LegendGlyph {
    /// Horizontal stroke. Default for line-shaped marks.
    Line,
    /// Filled disk. Used by point marks.
    Point,
    /// Filled rectangle. Used by bar and histogram marks.
    Bar,
    /// Filled rectangle with a top stroke. Used by area marks.
    Area,
}

/// Bar/box mark orientation.
#[derive(Debug, Clone, Copy, PartialEq, Eq, Default, Structural)]
#[non_exhaustive]
pub enum Orientation {
    /// Bars rise vertically along the y-axis (categories on x).
    #[default]
    Vertical,
    /// Bars extend horizontally along the x-axis (categories on y).
    Horizontal,
}

/// How heatmap cell values map to the `[0, 1]` colormap input.
#[derive(Debug, Clone, Copy, PartialEq, Eq, Default, Structural)]
#[non_exhaustive]
pub enum HeatmapColorScale {
    /// Linear: `t = (v - vmin) / (vmax - vmin)`.
    #[default]
    Linear,
    /// Log10 of the value, bounded below by a small epsilon.
    Log,
}

/// Where the vertical step transition happens relative to data points.
#[derive(Debug, Clone, Copy, PartialEq, Eq, Default, Structural)]
#[non_exhaustive]
pub enum StepPosition {
    /// Vertical transition happens *before* the data point.
    #[default]
    Pre,
    /// Vertical transition at midpoint between points.
    Mid,
    /// Vertical transition happens *after* the data point.
    Post,
}

/// How a contour mark renders the contour set.
#[derive(Clone, Copy, Debug, Default, PartialEq, Eq, Structural)]
#[non_exhaustive]
pub enum ContourMode {
    /// Stroke each contour level with a 1-px line per cell crossing. Default.
    #[default]
    Isolines,
    /// Fill the band between consecutive levels.
    FilledBands,
    /// Both filled bands and overlaid isolines.
    FilledWithLines,
}

/// Direction the whiskers of an error bar extend along.
#[derive(Clone, Copy, Debug, PartialEq, Eq, Default, Structural)]
#[non_exhaustive]
pub enum ErrorBarOrientation {
    /// Whiskers extend along the y-axis. Default.
    #[default]
    Vertical,
    /// Whiskers extend along the x-axis.
    Horizontal,
}

/// What text to draw on each pie slice (if any).
#[derive(Clone, Copy, Debug, Default, PartialEq, Eq, Structural)]
#[non_exhaustive]
pub enum PieLabelMode {
    /// No labels.
    #[default]
    NoLabels,
    /// Render `XX%` of the total at each slice midpoint.
    Percent,
    /// Render the raw value at each slice midpoint.
    Value,
}

/// Axis selector for marks that anchor to a specific edge of the plot rect.
#[derive(Clone, Copy, Debug, PartialEq, Eq, Structural)]
#[non_exhaustive]
pub enum AxisDir {
    /// Bottom edge — ticks ride along the x-axis pointing upward into the plot.
    X,
    /// Left edge — ticks ride along the y-axis pointing rightward into the plot.
    Y,
}

/// How the per-group violin densities are normalised against each other.
#[derive(Clone, Copy, Debug, Default, PartialEq, Eq, Structural)]
#[non_exhaustive]
pub enum ViolinScale {
    /// Equal area per violin (default).
    #[default]
    Area,
    /// Scale by sample size.
    Count,
    /// Equal max width per violin.
    Width,
}

/// Kernel function of a kernel density estimate.
#[derive(Clone, Copy, Debug, Default, PartialEq, Eq, Structural)]
#[non_exhaustive]
pub enum Kernel {
    /// Standard normal kernel: `K(u) = (1/√(2π)) · exp(−u²/2)`.
    #[default]
    Gaussian,
}

} // verus!
