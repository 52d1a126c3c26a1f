//! The zoom-to-cursor anchor projection.
//!
//! When the scale changes while the cursor hovers a world point, the
//! camera center must shift so that the same world point stays under
//! the cursor.  The world point ("anchor") under a cursor at
//! normalized viewport position `nc` is
//! `center + nc * visible_size / 2`; after the scale change the new
//! center is `anchor - nc * new_visible_size / 2`.

use vstd::prelude::*;

use crate::frac::FracVal;
use crate::frac::fadd;
use crate::frac::fdiv;
use crate::frac::feq;
use crate::frac::fhalf;
use crate::frac::fmul;
use crate::frac::fpos;
use crate::frac::fsub;
use crate::frac::fval_ok;
use crate::frac::fvalid;
use crate::geom::Vec2;
use crate::geom::Vec2Val;

verus! {

/// The world point under the cursor before the scale change.
pub open spec fn anchor_model(center: Vec2Val, nc: Vec2Val, visible_before: Vec2Val)
    -> Vec2Val {
    Vec2Val {
        x: fadd(center.x, fmul(nc.x, fhalf(visible_before.x))),
        y: fadd(center.y, fmul(nc.y, fhalf(visible_before.y))),
    }
}

/// The camera center that keeps the anchor under the cursor after the
/// visible area changed size.
pub open spec fn project_model(
    center: Vec2Val,
    nc: Vec2Val,
    visible_before: Vec2Val,
    visible_after: Vec2Val,
) -> Vec2Val {
    let anchor = anchor_model(center, nc, visible_before);
    Vec2Val {
        x: fsub(anchor.x, fmul(nc.x, fhalf(visible_after.x))),
        y: fsub(anchor.y, fmul(nc.y, fhalf(visible_after.y))),
    }
}

/// Magnitude bounds under which the anchor projection can be computed
/// exactly in machine arithmetic.
pub open spec fn project_fits(
    center: Vec2Val,
    nc: Vec2Val,
    visible_before: Vec2Val,
    visible_after: Vec2Val,
) -> bool {
    let anchor = anchor_model(center, nc, visible_before);
    &&& fval_ok(fhalf(visible_before.x))
    &&& fval_ok(fhalf(visible_before.y))
    &&& fval_ok(fmul(nc.x, fhalf(visible_before.x)))
    &&& fval_ok(fmul(nc.y, fhalf(visible_before.y)))
    &&& fval_ok(anchor.x)
    &&& fval_ok(anchor.y)
    &&& fval_ok(fhalf(visible_after.x))
    &&& fval_ok(fhalf(visible_after.y))
    &&& fval_ok(fmul(nc.x, fhalf(visible_after.x)))
    &&& fval_ok(fmul(nc.y, fhalf(visible_after.y)))
    &&& fval_ok(fsub(anchor.x, fmul(nc.x, fhalf(visible_after.x))))
    &&& fval_ok(fsub(anchor.y, fmul(nc.y, fhalf(visible_after.y))))
}

/// The world point under the cursor: the camera center plus the
/// cursor's normalized offset scaled by half the visible area.
pub fn cursor_world_anchor(
    camera_center_before: Vec2,
    normalized_cursor: Vec2,
    visible_area_size_before: Vec2,
) -> (r: Vec2)
    requires
        camera_center_before.wf(),
        normalized_cursor.wf(),
        visible_area_size_before.wf(),
        fval_ok(fhalf(visible_area_size_before@.x)),
        fval_ok(fhalf(visible_area_size_before@.y)),
        fval_ok(fmul(normalized_cursor@.x, fhalf(visible_area_size_before@.x))),
        fval_ok(fmul(normalized_cursor@.y, fhalf(visible_area_size_before@.y))),
        fval_ok(anchor_model(camera_center_before@, normalized_cursor@,
            visible_area_size_before@).x),
        fval_ok(anchor_model(camera_center_before@, normalized_cursor@,
            visible_area_size_before@).y),
    ensures
        r.wf(),
        r@ == anchor_model(camera_center_before@, normalized_cursor@,
            visible_area_size_before@),
{
    Vec2 {
        x: camera_center_before.x.add(
            normalized_cursor.x.mul(visible_area_size_before.x.half()),
        ),
        y: camera_center_before.y.add(
            normalized_cursor.y.mul(visible_area_size_before.y.half()),
        ),
    }
}

/// The camera center after a zoom-to-cursor scale change: the anchor
/// under the cursor stays fixed while the visible area goes from
/// `visible_area_size_before` to `visible_area_size_after`.
pub fn project(
    camera_center_before: Vec2,
    normalized_cursor: Vec2,
    visible_area_size_before: Vec2,
    visible_area_size_after: Vec2,
) -> (r: Vec2)
    requires
        camera_center_before.wf(),
        normalized_cursor.wf(),
        visible_area_size_before.wf(),
        visible_area_size_after.wf(),
        project_fits(camera_center_before@, normalized_cursor@, visible_area_size_before@,
            visible_area_size_after@),
    ensures
        r.wf(),
        r@ == project_model(camera_center_before@, normalized_cursor@,
            visible_area_size_before@, visible_area_size_after@),
{
    let anchor = cursor_world_anchor(
        camera_center_before,
        normalized_cursor,
        visible_area_size_before,
    );
    Vec2 {
        x: anchor.x.sub(normalized_cursor.x.mul(visible_area_size_after.x.half())),
        y: anchor.y.sub(normalized_cursor.y.mul(visible_area_size_after.y.half())),
    }
}

/// One axis of the anchor-invariance law: shifting a point `a` by
/// `n * h` and dividing the shift back out by the positive `h`
/// recovers exactly `n`.
proof fn lemma_anchor_roundtrip_axis(a: FracVal, n: FracVal, h: FracVal)
    requires
        fvalid(a),
        fvalid(n),
        fvalid(h),
        fpos(h),
    ensures
        feq(fdiv(fsub(a, fsub(a, fmul(n, h))), h), n),
{
    let k = fmul(n, h);
    let s = fsub(a, k);
    let d = fsub(a, s);
    assert(k.den > 0) by (nonlinear_arith)
        requires
            n.den > 0,
            h.den > 0,
            k.den == n.den * h.den,
    ;
    assert(s.den > 0) by (nonlinear_arith)
        requires
            a.den > 0,
            k.den > 0,
            s.den == a.den * k.den,
    ;
    assert(d.den > 0) by (nonlinear_arith)
        requires
            a.den > 0,
            s.den > 0,
            d.den == a.den * s.den,
    ;
    assert(d.den * h.num > 0) by (nonlinear_arith)
        requires
            d.den > 0,
            h.num > 0,
    ;
    let q = a.den * a.den;
    assert(d.num == k.num * q) by (nonlinear_arith)
        requires
            q == a.den * a.den,
            s.num == a.num * k.den - k.num * a.den,
            s.den == a.den * k.den,
            d.num == a.num * s.den - s.num * a.den,
    ;
    assert(d.den == q * k.den) by (nonlinear_arith)
        requires
            q == a.den * a.den,
            s.den == a.den * k.den,
            d.den == a.den * s.den,
    ;
    assert((d.num * h.den) * n.den == n.num * (d.den * h.num)) by (nonlinear_arith)
        requires
            d.num == k.num * q,
            d.den == q * k.den,
            k.num == n.num * h.num,
            k.den == n.den * h.den,
    ;
}

/// Law (anchor invariance): for any normalized cursor position and
/// any change of the visible area to a positive new size, re-deriving
/// the cursor's normalized position from the projected center — the
/// anchor's offset from the new center divided by half the new
/// visible area — yields exactly the original normalized cursor.
pub proof fn lemma_anchor_invariance(
    center: Vec2Val,
    nc: Vec2Val,
    visible_before: Vec2Val,
    visible_after: Vec2Val,
)
    requires
        fvalid(center.x),
        fvalid(center.y),
        fvalid(nc.x),
        fvalid(nc.y),
        fvalid(visible_before.x),
        fvalid(visible_before.y),
        fvalid(visible_after.x),
        fvalid(visible_after.y),
        fpos(visible_after.x),
        fpos(visible_after.y),
    ensures
        feq(
            fdiv(
                fsub(
                    anchor_model(center, nc, visible_before).x,
                    project_model(center, nc, visible_before, visible_after).x,
                ),
                fhalf(visible_after.x),
            ),
            nc.x,
        ),
        feq(
            fdiv(
                fsub(
                    anchor_model(center, nc, visible_before).y,
                    project_model(center, nc, visible_before, visible_after).y,
                ),
                fhalf(visible_after.y),
            ),
            nc.y,
        ),
{
    let anchor = anchor_model(center, nc, visible_before);
    let kx = fmul(nc.x, fhalf(visible_before.x));
    let ky = fmul(nc.y, fhalf(visible_before.y));
    assert(kx.den > 0) by (nonlinear_arith)
        requires
            nc.x.den > 0,
            visible_before.x.den > 0,
            kx.den == nc.x.den * (visible_before.x.den * 2),
    ;
    assert(ky.den > 0) by (nonlinear_arith)
        requires
            nc.y.den > 0,
            visible_before.y.den > 0,
            ky.den == nc.y.den * (visible_before.y.den * 2),
    ;
    assert(anchor.x.den > 0) by (nonlinear_arith)
        requires
            center.x.den > 0,
            kx.den > 0,
            anchor.x.den == center.x.den * kx.den,
    ;
    assert(anchor.y.den > 0) by (nonlinear_arith)
        requires
            center.y.den > 0,
            ky.den > 0,
            anchor.y.den == center.y.den * ky.den,
    ;
    lemma_anchor_roundtrip_axis(anchor.x, nc.x, fhalf(visible_after.x));
    lemma_anchor_roundtrip_axis(anchor.y, nc.y, fhalf(visible_after.y));
}

} // verus!
