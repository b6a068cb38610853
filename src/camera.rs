//! The integer part of the mapping from pixels to the camera plane.
//!
//! Along an axis of `extent` pixels, pixel `i` lies at `(2 i - extent) /
//! extent` of the half-width of the view, scaled by the tangent of the half
//! field of view; the numerator is computed here, exactly.
use vstd::prelude::*;

verus! {

/// Offset of pixel `i` from the centre of an axis of `extent` pixels, in
/// half pixels.
pub open spec fn offset_of(i: int, extent: int) -> int {
    2 * i - extent
}

/// Offset of pixel `i` from the centre of an axis of `extent` pixels, in
/// half pixels: `-extent` at the first pixel, `extent` one past the last.
pub fn plane_offset(i: u32, extent: u32) -> (r: i64)
    ensures
        r == offset_of(i as int, extent as int),
{
    2 * (i as i64) - (extent as i64)
}

/// The mapping is centred: pixel `i` and pixel `extent - i` lie at opposite
/// offsets, so pixel 0 and pixel `extent` are the two extremes of the view.
pub proof fn lemma_offsets_centred(i: int, extent: int)
    requires
        0 <= i <= extent,
    ensures
        offset_of(i, extent) == -offset_of(extent - i, extent),
        offset_of(0, extent) == -extent,
        offset_of(extent, extent) == extent,
        -extent <= offset_of(i, extent) <= extent,
{
}

} // verus!
