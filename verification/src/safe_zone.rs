//! The safe-zone clamp.
//!
//! The clamp keeps the whole visible rectangle — not merely the camera
//! center — inside the configured world-space boundary: the boundary
//! is shrunk inward by half of the visible area on each axis and the
//! proposed center is clamped into what is left.  When the viewport is
//! wider than the boundary on an axis, the center snaps to the
//! boundary's midpoint on that axis.
//!
//! Both pan and zoom commit their final camera center through this
//! single function; it also serves as the explicit re-clamp entry
//! point after an external viewport resize.

use vstd::prelude::*;

use crate::ext::Ext;
use crate::ext::ExtVal;
use crate::ext::ext_add_fin;
use crate::ext::ext_sub_fin;
use crate::ext::ext_valid;
use crate::ext::fclamp_ext;
use crate::frac::Frac;
use crate::frac::FracVal;
use crate::frac::fadd;
use crate::frac::fhalf;
use crate::frac::flt;
use crate::frac::fsub;
use crate::frac::fval_ok;
use crate::frac::fvalid;
use crate::geom::BoundsRect;
use crate::geom::BoundsRectVal;
use crate::geom::Vec2;
use crate::geom::Vec2Val;
use crate::geom::bounds_unbounded;

verus! {

/// One axis of the safe-zone clamp: shrink `[lo, hi]` inward by
/// `half_size` on both sides and clamp `pos` into what is left; when
/// the shrunken interval is empty (the viewport is wider than the
/// boundary), snap to the midpoint of `[lo, hi]`.
pub open spec fn clamp_axis_model(pos: FracVal, lo: ExtVal, hi: ExtVal, half_size: FracVal)
    -> FracVal {
    match (lo, hi) {
        (ExtVal::Fin(l), ExtVal::Fin(h)) => {
            let sl = fadd(l, half_size);
            let sh = fsub(h, half_size);
            if flt(sh, sl) {
                fhalf(fadd(l, h))
            } else {
                fclamp_ext(pos, ExtVal::Fin(sl), ExtVal::Fin(sh))
            }
        },
        _ => fclamp_ext(pos, ext_add_fin(lo, half_size), ext_sub_fin(hi, half_size)),
    }
}

/// The safe-zone clamp on both axes, with `half` of the visible area
/// taken per axis.
pub open spec fn clamp_zone_model(pos: Vec2Val, b: BoundsRectVal, visible_size: Vec2Val)
    -> Vec2Val {
    Vec2Val {
        x: clamp_axis_model(pos.x, b.min.x, b.max.x, fhalf(visible_size.x)),
        y: clamp_axis_model(pos.y, b.min.y, b.max.y, fhalf(visible_size.y)),
    }
}

/// Magnitude bounds under which one axis of the clamp can be computed
/// exactly in machine arithmetic.
pub open spec fn clamp_axis_fits(lo: ExtVal, hi: ExtVal, half_size: FracVal) -> bool {
    &&& lo matches ExtVal::Fin(l) ==> fval_ok(fadd(l, half_size))
    &&& hi matches ExtVal::Fin(h) ==> fval_ok(fsub(h, half_size))
    &&& lo matches ExtVal::Fin(l) ==> (hi matches ExtVal::Fin(h) ==> fval_ok(fadd(l, h))
        && fval_ok(fhalf(fadd(l, h))))
}

/// Magnitude bounds under which the whole clamp can be computed
/// exactly in machine arithmetic.
pub open spec fn clamp_zone_fits(b: BoundsRectVal, visible_size: Vec2Val) -> bool {
    &&& fval_ok(fhalf(visible_size.x))
    &&& fval_ok(fhalf(visible_size.y))
    &&& clamp_axis_fits(b.min.x, b.max.x, fhalf(visible_size.x))
    &&& clamp_axis_fits(b.min.y, b.max.y, fhalf(visible_size.y))
}

/// One axis of the safe-zone clamp.
fn clamp_axis(pos: Frac, lo: Ext, hi: Ext, half_size: Frac) -> (r: Frac)
    requires
        pos.wf(),
        lo.wf(),
        hi.wf(),
        half_size.wf(),
        clamp_axis_fits(lo@, hi@, half_size@),
    ensures
        r.wf(),
        r@ == clamp_axis_model(pos@, lo@, hi@, half_size@),
{
    match (lo, hi) {
        (Ext::Fin(l), Ext::Fin(h)) => {
            let sl = l.add(half_size);
            let sh = h.sub(half_size);
            if sh.lt(sl) {
                l.add(h).half()
            } else {
                crate::ext::clamp_frac_ext(pos, Ext::Fin(sl), Ext::Fin(sh))
            }
        },
        _ => crate::ext::clamp_frac_ext(
            pos,
            lo.add_fin(half_size),
            hi.sub_fin(half_size),
        ),
    }
}

/// Clamps a proposed camera center so that the whole visible
/// rectangle `pos ± visible_size / 2` stays inside `bounds`; on an
/// axis whose boundary is narrower than the viewport, the center
/// snaps to the boundary's midpoint.
pub fn clamp_to_safe_zone(pos: Vec2, bounds: &BoundsRect, visible_size: Vec2) -> (r: Vec2)
    requires
        pos.wf(),
        bounds.wf(),
        visible_size.wf(),
        clamp_zone_fits(bounds@, visible_size@),
    ensures
        r.wf(),
        r@ == clamp_zone_model(pos@, bounds@, visible_size@),
        bounds_unbounded(bounds@) ==> r@ == pos@,
{
    proof {
        if bounds_unbounded(bounds@) {
            lemma_safe_zone_unbounded_noop(pos@, bounds@, visible_size@);
        }
    }
    let half_x = visible_size.x.half();
    let half_y = visible_size.y.half();
    Vec2 {
        x: clamp_axis(pos.x, bounds.min.x, bounds.max.x, half_x),
        y: clamp_axis(pos.y, bounds.min.y, bounds.max.y, half_y),
    }
}

/// Law: the safe-zone clamp is idempotent on one axis — clamping a
/// value that the clamp itself produced changes nothing.
proof fn lemma_clamp_axis_idempotent(pos: FracVal, lo: ExtVal, hi: ExtVal, half_size: FracVal)
    requires
        fvalid(pos),
        ext_valid(lo),
        ext_valid(hi),
        fvalid(half_size),
    ensures
        clamp_axis_model(clamp_axis_model(pos, lo, hi, half_size), lo, hi, half_size)
            == clamp_axis_model(pos, lo, hi, half_size),
{
}

/// Law: the safe-zone clamp is idempotent — clamping twice with the
/// same boundary and visible area yields exactly the result of
/// clamping once.
pub proof fn lemma_safe_zone_idempotent(pos: Vec2Val, b: BoundsRectVal, visible_size: Vec2Val)
    requires
        fvalid(pos.x),
        fvalid(pos.y),
        ext_valid(b.min.x),
        ext_valid(b.max.x),
        ext_valid(b.min.y),
        ext_valid(b.max.y),
        fvalid(visible_size.x),
        fvalid(visible_size.y),
    ensures
        clamp_zone_model(clamp_zone_model(pos, b, visible_size), b, visible_size)
            == clamp_zone_model(pos, b, visible_size),
{
    lemma_clamp_axis_idempotent(pos.x, b.min.x, b.max.x, fhalf(visible_size.x));
    lemma_clamp_axis_idempotent(pos.y, b.min.y, b.max.y, fhalf(visible_size.y));
}

/// Law: with a fully open boundary the safe-zone clamp is the
/// identity — the proposed center comes back unchanged.
pub proof fn lemma_safe_zone_unbounded_noop(pos: Vec2Val, b: BoundsRectVal, visible_size: Vec2Val)
    requires
        bounds_unbounded(b),
    ensures
        clamp_zone_model(pos, b, visible_size) == pos,
{
}

} // verus!
