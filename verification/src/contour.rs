//! Marching squares: how one grid cell is classified against a contour level
//! and which of its edges the contour crosses.
//!
//! A cell has four corners, numbered counter-clockwise from the bottom left:
//! 0 = bottom-left, 1 = bottom-right, 2 = top-right, 3 = top-left. Edge `e`
//! joins corner `e` to corner `e + 1 (mod 4)`: 0 = bottom, 1 = right,
//! 2 = top, 3 = left. Bit `k` of a cell's mask is set when corner `k` lies
//! above the level.
use vstd::prelude::*;

verus! {

/// Marching-squares contour extractor.
///
/// Each crossed cell contributes one or two segments, each joining two points
/// on the cell's edges; saddle cells (masks 5 and 10) are disambiguated by
/// whether the average of the four corners lies above the level.
pub struct Contour;

/// The mask of a cell whose corners 0..3 are (`bl`, `br`, `tr`, `tl`) above the level.
pub open spec fn mask_of(bl: bool, br: bool, tr: bool, tl: bool) -> u8 {
    ((if bl { 1u8 } else { 0u8 }) + (if br { 2u8 } else { 0u8 }) + (if tr { 4u8 } else { 0u8 }) + (
    if tl {
        8u8
    } else {
        0u8
    })) as u8
}

/// Whether corner `k` of a cell with mask `mask` lies above the level.
pub open spec fn corner_above(mask: u8, k: int) -> bool {
    ((mask as int) / pow2_of(k)) % 2 == 1
}

/// `2^k` for a corner number `k`.
pub open spec fn pow2_of(k: int) -> int {
    if k == 0 {
        1
    } else if k == 1 {
        2
    } else if k == 2 {
        4
    } else {
        8
    }
}

/// Edge `e` is crossed by the level: its two corners lie on different sides.
pub open spec fn edge_crossed(mask: u8, e: int) -> bool {
    corner_above(mask, e) != corner_above(mask, (e + 1) % 4)
}

/// The segments, as pairs of edges, that the contour draws in a cell with
/// mask `mask`. `center_above` tells whether the average of the corners lies
/// above the level; it only matters for the two saddle masks.
pub open spec fn segments_of(mask: u8, center_above: bool) -> Seq<(u8, u8)> {
    if mask == 1 || mask == 14 {
        seq![(3u8, 0u8)]
    } else if mask == 2 || mask == 13 {
        seq![(0u8, 1u8)]
    } else if mask == 3 || mask == 12 {
        seq![(3u8, 1u8)]
    } else if mask == 4 || mask == 11 {
        seq![(1u8, 2u8)]
    } else if mask == 6 || mask == 9 {
        seq![(0u8, 2u8)]
    } else if mask == 7 || mask == 8 {
        seq![(2u8, 3u8)]
    } else if mask == 5 {
        if center_above {
            seq![(0u8, 1u8), (2u8, 3u8)]
        } else {
            seq![(3u8, 0u8), (1u8, 2u8)]
        }
    } else if mask == 10 {
        if center_above {
            seq![(3u8, 0u8), (1u8, 2u8)]
        } else {
            seq![(0u8, 1u8), (2u8, 3u8)]
        }
    } else {
        Seq::empty()
    }
}

/// How many segment endpoints of `segs` lie on edge `e`.
pub open spec fn endpoints_on(segs: Seq<(u8, u8)>, e: int) -> nat
    decreases segs.len(),
{
    if segs.len() == 0 {
        0
    } else {
        endpoints_on(segs.drop_last(), e) + (if segs.last().0 == e {
            1nat
        } else {
            0nat
        }) + (if segs.last().1 == e {
            1nat
        } else {
            0nat
        })
    }
}

impl Contour {
    /// The mask of a cell: bit 0 for the bottom-left corner above the level,
    /// bit 1 bottom-right, bit 2 top-right, bit 3 top-left.
    pub fn cell_mask(bl: bool, br: bool, tr: bool, tl: bool) -> (mask: u8)
        ensures
            mask == mask_of(bl, br, tr, tl),
            mask < 16,
    {
        let mut mask = 0u8;
        if bl {
            assert(0u8 | 1u8 == 1u8) by (bit_vector);
            mask = mask | 1;
        }
        let m0 = mask;
        if br {
            mask = mask | 2;
            assert(m0 | 2 == m0 + 2) by (bit_vector)
                requires
                    m0 < 2,
            ;
        }
        let m1 = mask;
        if tr {
            mask = mask | 4;
            assert(m1 | 4 == m1 + 4) by (bit_vector)
                requires
                    m1 < 4,
            ;
        }
        let m2 = mask;
        if tl {
            mask = mask | 8;
            assert(m2 | 8 == m2 + 8) by (bit_vector)
                requires
                    m2 < 8,
            ;
        }
        mask
    }

    /// The segments a cell with mask `mask` contributes, each as the pair of
    /// edges it joins. Masks 0 and 15 (no crossing) give none; the saddle
    /// masks 5 and 10 give two, chosen by `center_above`.
    pub fn cell_segments(mask: u8, center_above: bool) -> (segs: Vec<(u8, u8)>)
        requires
            mask < 16,
        ensures
            segs@ == segments_of(mask, center_above),
    {
        let mut segs: Vec<(u8, u8)> = Vec::new();
        if mask == 1 || mask == 14 {
            segs.push((3, 0));
        } else if mask == 2 || mask == 13 {
            segs.push((0, 1));
        } else if mask == 3 || mask == 12 {
            segs.push((3, 1));
        } else if mask == 4 || mask == 11 {
            segs.push((1, 2));
        } else if mask == 6 || mask == 9 {
            segs.push((0, 2));
        } else if mask == 7 || mask == 8 {
            segs.push((2, 3));
        } else if mask == 5 {
            if center_above {
                segs.push((0, 1));
                segs.push((2, 3));
            } else {
                segs.push((3, 0));
                segs.push((1, 2));
            }
        } else if mask == 10 {
            if center_above {
                segs.push((3, 0));
                segs.push((1, 2));
            } else {
                segs.push((0, 1));
                segs.push((2, 3));
            }
        }
        assert(segs@ =~= segments_of(mask, center_above));
        segs
    }
}

/// The contour in a cell passes through exactly the crossed edges, each once:
/// for every mask and either saddle choice, an edge whose corners lie on
/// different sides of the level is the endpoint of exactly one segment, and
/// an edge whose corners lie on the same side is the endpoint of none.
pub proof fn segments_cover_crossed_edges(mask: u8, center_above: bool, e: int)
    requires
        mask < 16,
        0 <= e < 4,
    ensures
        endpoints_on(segments_of(mask, center_above), e) == (if edge_crossed(mask, e) {
            1nat
        } else {
            0nat
        }),
{
    let segs = segments_of(mask, center_above);
    reveal_with_fuel(endpoints_on, 3);
    assert(segs.len() <= 2);
    if segs.len() == 2 {
        assert(segs.drop_last().drop_last() =~= Seq::<(u8, u8)>::empty());
    } else if segs.len() == 1 {
        assert(segs.drop_last() =~= Seq::<(u8, u8)>::empty());
    }
}

/// A cell with all corners on one side of the level draws nothing, and the
/// contour of a cell does not change when every corner flips side and the
/// saddle choice flips with them.
pub proof fn segments_symmetric_under_flip(mask: u8, center_above: bool)
    requires
        mask < 16,
    ensures
        segments_of(0, center_above).len() == 0,
        segments_of(15, center_above).len() == 0,
        segments_of((15 - mask) as u8, !center_above) == segments_of(mask, center_above),
{
}

} // verus!
