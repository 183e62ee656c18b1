//! Scales that carry no floating-point state.
use vstd::prelude::*;

verus! {

/// Maps a category index (0..n) to its band-center position in `[0, 1]`:
/// index `i` stands at `(i + 0.5) / n`. This is what polar bars, coxcombs
/// and wind-rose marks want — the angular center of each compass bin,
/// month or category.
pub struct CategoricalScale {
    /// Total number of categories. Zero produces a degenerate midpoint scale.
    pub n_categories: usize,
}

} // verus!
