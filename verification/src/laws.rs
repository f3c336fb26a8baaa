//! Laws of the conversion pipeline that relate several definitions.

use crate::coord::rat_add;
use crate::coord::rat_eq;
use crate::coord::rat_half;
use crate::coord::rat_neg;
use crate::coord::rat_zero;
use crate::engine::ResolveError;
use crate::geometry::Geometry;
use crate::mode::TessellationMode;
use crate::shapes::RectangleOrigin;
use crate::shapes::Shape;
use crate::shapes::anchor_x;
use crate::shapes::anchor_y;
use crate::shapes::engine_accepts;
use crate::shapes::mesh_of;
use vstd::prelude::*;

verus! {

/// Rectangle origin mapping: for width `w` and height `h`, the box handed to
/// the fill engine — whose four corners are exactly the emitted vertices —
/// spans `[anchor_x, anchor_x + w] x [anchor_y, anchor_y + h]`, and per
/// origin variant that box equals, as exact rationals:
/// Center: `[-w/2, w/2] x [-h/2, h/2]`;
/// BottomLeft: `[0, w] x [0, h]`;
/// BottomRight: `[-w, 0] x [0, h]`;
/// TopRight: `[-w, 0] x [-h, 0]`;
/// TopLeft: `[0, w] x [-h, 0]`.
/// Each origin variant anchors a distinct corner of the box at the origin.
pub proof fn lemma_rectangle_box(origin: RectangleOrigin, w: (int, int), h: (int, int))
    requires
        w.1 > 0,
        h.1 > 0,
    ensures
        origin == RectangleOrigin::Center ==> rat_eq(anchor_x(origin, w), rat_neg(rat_half(w)))
            && rat_eq(rat_add(anchor_x(origin, w), w), rat_half(w)) && rat_eq(
            anchor_y(origin, h),
            rat_neg(rat_half(h)),
        ) && rat_eq(rat_add(anchor_y(origin, h), h), rat_half(h)),
        origin == RectangleOrigin::BottomLeft ==> rat_eq(anchor_x(origin, w), rat_zero())
            && rat_eq(rat_add(anchor_x(origin, w), w), w) && rat_eq(anchor_y(origin, h), rat_zero())
            && rat_eq(rat_add(anchor_y(origin, h), h), h),
        origin == RectangleOrigin::BottomRight ==> rat_eq(anchor_x(origin, w), rat_neg(w))
            && rat_eq(rat_add(anchor_x(origin, w), w), rat_zero()) && rat_eq(
            anchor_y(origin, h),
            rat_zero(),
        ) && rat_eq(rat_add(anchor_y(origin, h), h), h),
        origin == RectangleOrigin::TopRight ==> rat_eq(anchor_x(origin, w), rat_neg(w)) && rat_eq(
            rat_add(anchor_x(origin, w), w),
            rat_zero(),
        ) && rat_eq(anchor_y(origin, h), rat_neg(h)) && rat_eq(
            rat_add(anchor_y(origin, h), h),
            rat_zero(),
        ),
        origin == RectangleOrigin::TopLeft ==> rat_eq(anchor_x(origin, w), rat_zero()) && rat_eq(
            rat_add(anchor_x(origin, w), w),
            w,
        ) && rat_eq(anchor_y(origin, h), rat_neg(h)) && rat_eq(
            rat_add(anchor_y(origin, h), h),
            rat_zero(),
        ),
{
    assert(((-w.0) * w.1 + w.0 * (2 * w.1)) * (2 * w.1) == w.0 * ((2 * w.1) * w.1))
        by (nonlinear_arith);
    assert(((-h.0) * h.1 + h.0 * (2 * h.1)) * (2 * h.1) == h.0 * ((2 * h.1) * h.1))
        by (nonlinear_arith);
    assert(((-w.0) * w.1 + w.0 * w.1) * 1 == 0 * (w.1 * w.1)) by (nonlinear_arith);
    assert(((-h.0) * h.1 + h.0 * h.1) * 1 == 0 * (h.1 * h.1)) by (nonlinear_arith);
    assert((0 * w.1 + w.0 * 1) * w.1 == w.0 * (1 * w.1)) by (nonlinear_arith);
    assert((0 * h.1 + h.0 * 1) * h.1 == h.0 * (1 * h.1)) by (nonlinear_arith);
}

/// Idempotence of conversion: any two resolve results on the same shape and
/// mode, each obtained with the matching engine slot populated — fresh or
/// reused handles — agree. Both succeed or both fail (the engine's
/// acceptance is a function of shape and mode), and on success they carry
/// the same vertex positions and the same triangle indices. The premises
/// are exactly what resolve ensures of each call.
pub proof fn lemma_resolve_idempotent(
    shape: Shape,
    mode: TessellationMode,
    r1: Result<Geometry, ResolveError>,
    r2: Result<Geometry, ResolveError>,
)
    requires
        r1 is Ok <==> engine_accepts(shape, mode),
        r2 is Ok <==> engine_accepts(shape, mode),
        r1 matches Ok(g1) ==> g1.mesh() == mesh_of(shape, mode),
        r2 matches Ok(g2) ==> g2.mesh() == mesh_of(shape, mode),
    ensures
        r1 is Ok <==> r2 is Ok,
        r1 matches Ok(g1) ==> (r2 matches Ok(g2) ==> g1.vertices@ == g2.vertices@ && g1.indices@
            == g2.indices@),
{
}

} // verus!
