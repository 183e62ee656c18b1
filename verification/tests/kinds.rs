use starsight::kinds::{
    ContourMode, ErrorBarOrientation, HeatmapColorScale, Kernel, Orientation, PieLabelMode, StepPosition,
    ViolinScale,
};
use starsight::paths::{LineCap, LineJoin};
use starsight::scales::CategoricalScale;

#[test]
fn option_enums_default_to_their_first_mode() {
    assert_eq!(LineCap::default(), LineCap::Butt);
    assert_eq!(LineJoin::default(), LineJoin::Miter);
    assert_eq!(Orientation::default(), Orientation::Vertical);
    assert_eq!(HeatmapColorScale::default(), HeatmapColorScale::Linear);
    assert_eq!(StepPosition::default(), StepPosition::Pre);
    assert_eq!(ContourMode::default(), ContourMode::Isolines);
    assert_eq!(ErrorBarOrientation::default(), ErrorBarOrientation::Vertical);
    assert_eq!(PieLabelMode::default(), PieLabelMode::NoLabels);
    assert_eq!(ViolinScale::default(), ViolinScale::Area);
    assert_eq!(Kernel::default(), Kernel::Gaussian);
}

#[test]
fn categorical_scale_holds_its_count() {
    let s = CategoricalScale { n_categories: 12 };
    assert_eq!(s.n_categories, 12);
}
