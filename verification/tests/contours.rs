use starsight::contour::Contour;

#[test]
fn mask_sets_one_bit_per_corner_above() {
    assert_eq!(Contour::cell_mask(false, false, false, false), 0);
    assert_eq!(Contour::cell_mask(true, false, false, false), 1);
    assert_eq!(Contour::cell_mask(false, true, false, false), 2);
    assert_eq!(Contour::cell_mask(false, false, true, false), 4);
    assert_eq!(Contour::cell_mask(false, false, false, true), 8);
    assert_eq!(Contour::cell_mask(true, false, true, false), 5);
    assert_eq!(Contour::cell_mask(true, true, true, true), 15);
}

#[test]
fn uniform_cells_have_no_segment() {
    assert!(Contour::cell_segments(0, true).is_empty());
    assert!(Contour::cell_segments(15, false).is_empty());
}

#[test]
fn plane_in_x_cuts_bottom_and_top_edges() {
    // Right corners above: mask 2 | 4 = 6 → the cut runs bottom edge to top edge.
    assert_eq!(Contour::cell_segments(6, false), vec![(0, 2)]);
    assert_eq!(Contour::cell_segments(9, true), vec![(0, 2)]);
}

#[test]
fn single_corner_cut() {
    assert_eq!(Contour::cell_segments(1, false), vec![(3, 0)]);
    assert_eq!(Contour::cell_segments(14, false), vec![(3, 0)]);
    assert_eq!(Contour::cell_segments(8, true), vec![(2, 3)]);
}

#[test]
fn saddles_emit_two_segments_by_center() {
    assert_eq!(Contour::cell_segments(5, true), vec![(0, 1), (2, 3)]);
    assert_eq!(Contour::cell_segments(5, false), vec![(3, 0), (1, 2)]);
    assert_eq!(Contour::cell_segments(10, true), vec![(3, 0), (1, 2)]);
    assert_eq!(Contour::cell_segments(10, false), vec![(0, 1), (2, 3)]);
}

#[test]
fn flipping_every_corner_keeps_the_segments() {
    for mask in 0u8..16 {
        for center in [false, true] {
            assert_eq!(Contour::cell_segments(15 - mask, !center), Contour::cell_segments(mask, center));
        }
    }
}

#[test]
fn every_crossed_edge_is_used_once() {
    for mask in 0u8..16 {
        for center in [false, true] {
            let segs = Contour::cell_segments(mask, center);
            for e in 0u8..4 {
                let a = (mask >> e) & 1;
                let b = (mask >> ((e + 1) % 4)) & 1;
                let uses = segs.iter().filter(|s| s.0 == e).count() + segs.iter().filter(|s| s.1 == e).count();
                assert_eq!(uses, if a != b { 1 } else { 0 });
            }
        }
    }
}
