//! The per-frame update passes, one call per camera.
//!
//! The host samples input once per rendered frame and calls
//! [`do_camera_zoom`] and [`do_camera_movement`] for each camera with
//! plain values: the current scale and center, the frame's normalized
//! zoom input, cursor and button state, and the sizes the projection
//! derives.  Both functions are pure: they return the new scale and
//! center and mutate nothing, so the host commits the results and
//! carries the frame's cursor sample into the next frame itself.

use vstd::prelude::*;

use crate::anchor::anchor_model;
use crate::anchor::lemma_anchor_invariance;
use crate::anchor::project_fits;
use crate::anchor::project_model;
use crate::camera::PanCam;
use crate::camera::Key;
use crate::camera::PointerButton;
use crate::camera::any_button_held;
use crate::camera::direction_model;
use crate::ext::ExtVal;
use crate::frac::Frac;
use crate::frac::FracVal;
use crate::frac::fdiv;
use crate::frac::feq;
use crate::frac::fhalf;
use crate::frac::fmul;
use crate::frac::fneg;
use crate::frac::fone;
use crate::frac::fpos;
use crate::frac::fsub;
use crate::frac::fval_ok;
use crate::frac::fvalid;
use crate::frac::fzero;
use crate::frac::lemma_fdiv_valid;
use crate::frac::lemma_fmul_pos;
use crate::frac::lemma_ops_valid;
use crate::scale::lemma_scale_solver_positive;
use crate::geom::Vec2;
use crate::geom::Vec2Val;
use crate::geom::bounds_span_fits;
use crate::geom::bounds_span_model;
use crate::safe_zone::clamp_zone_fits;
use crate::safe_zone::clamp_zone_model;
use crate::scale::max_scale_fits;
use crate::scale::solve_scale_fits;
use crate::scale::solve_scale_model;
use crate::zoom_inputs::NormalizedZoomInputs;
use crate::zoom_inputs::apply_sensitivity_fits;
use crate::zoom_inputs::apply_sensitivity_model;

verus! {

/// A device-space position turned into world orientation: the y axis
/// points down on the screen and up in the world.
pub open spec fn flip_y(v: Vec2Val) -> Vec2Val {
    Vec2Val { x: v.x, y: fneg(v.y) }
}

/// A cursor position relative to the viewport, rescaled to
/// `[-1, 1]` per axis and y-flipped into world orientation.
pub open spec fn normalized_cursor_model(
    cursor: Vec2Val,
    viewport_min: Vec2Val,
    viewport_size: Vec2Val,
) -> Vec2Val {
    let two = FracVal { num: 2, den: 1 };
    let px = fsub(fmul(fdiv(fsub(cursor.x, viewport_min.x), viewport_size.x), two), fone());
    let py = fsub(fmul(fdiv(fsub(cursor.y, viewport_min.y), viewport_size.y), two), fone());
    Vec2Val { x: px, y: fneg(py) }
}

/// Magnitude bounds under which the cursor normalization can be
/// computed exactly in machine arithmetic.
pub open spec fn normalized_cursor_fits(
    cursor: Vec2Val,
    viewport_min: Vec2Val,
    viewport_size: Vec2Val,
) -> bool {
    let two = FracVal { num: 2, den: 1 };
    let dx = fsub(cursor.x, viewport_min.x);
    let dy = fsub(cursor.y, viewport_min.y);
    &&& fval_ok(dx)
    &&& fval_ok(dy)
    &&& fval_ok(fdiv(dx, viewport_size.x))
    &&& fval_ok(fdiv(dy, viewport_size.y))
    &&& fval_ok(fmul(fdiv(dx, viewport_size.x), two))
    &&& fval_ok(fmul(fdiv(dy, viewport_size.y), two))
    &&& fval_ok(fsub(fmul(fdiv(dx, viewport_size.x), two), fone()))
    &&& fval_ok(fsub(fmul(fdiv(dy, viewport_size.y), two), fone()))
}

/// Normalizes a device-space cursor position against the viewport:
/// `-1` at the left/top edge becomes `-1`/`+1` in world orientation.
pub fn normalize_cursor_pos(cursor: Vec2, viewport_min: Vec2, viewport_size: Vec2)
    -> (r: Vec2)
    requires
        cursor.wf(),
        viewport_min.wf(),
        viewport_size.wf(),
        fpos(viewport_size@.x),
        fpos(viewport_size@.y),
        normalized_cursor_fits(cursor@, viewport_min@, viewport_size@),
    ensures
        r.wf(),
        r@ == normalized_cursor_model(cursor@, viewport_min@, viewport_size@),
{
    let two = Frac::from_whole(2);
    let px = cursor.x.sub(viewport_min.x).div(viewport_size.x).mul(two).sub(Frac::one());
    let py = cursor.y.sub(viewport_min.y).div(viewport_size.y).mul(two).sub(Frac::one());
    Vec2 { x: px, y: py.neg() }
}

/// A unit-length version of a keyboard direction whose components are
/// minus one, zero or one.  On a diagonal the exact unit length is
/// irrational, so both components take the fixed rational stand-in
/// `408/577` for the diagonal unit component, with their signs kept.
pub open spec fn normalize_dir_model(dir: Vec2Val) -> Vec2Val {
    if dir.x.num != 0 && dir.y.num != 0 {
        Vec2Val {
            x: FracVal { num: dir.x.num * 408, den: 577 },
            y: FracVal { num: dir.y.num * 408, den: 577 },
        }
    } else {
        dir
    }
}

fn normalize_dir(dir: Vec2) -> (r: Vec2)
    requires
        dir.wf(),
        dir@.x.den == 1,
        dir@.y.den == 1,
        -1 <= dir@.x.num <= 1,
        -1 <= dir@.y.num <= 1,
    ensures
        r.wf(),
        r@ == normalize_dir_model(dir@),
{
    if !dir.x.is_zero() && !dir.y.is_zero() {
        Vec2 {
            x: Frac { num: dir.x.num * 408, den: 577 },
            y: Frac { num: dir.y.num * 408, den: 577 },
        }
    } else {
        dir
    }
}

/// The scale and center after one frame's zoom pass for one camera.
///
/// Disabled cameras, frames whose zoom delta is exactly zero and a
/// degenerate (empty) viewport leave both untouched.  Otherwise the
/// scale solver produces the new scale; with zoom-to-cursor on and a
/// cursor present, the anchor projection proposes a shifted center,
/// else the proposed center is the old one; either way the safe-zone
/// clamp at the new visible area bounds what is committed, so a zoom
/// that grows the visible area can never leave the viewport hanging
/// outside a finite boundary.
pub open spec fn zoom_step_model(
    cam: PanCam,
    old_scale: FracVal,
    center: Vec2Val,
    inputs: NormalizedZoomInputs,
    cursor: Option<Vec2Val>,
    viewport_min: Vec2Val,
    viewport_size: Vec2Val,
    base_world_size: Vec2Val,
) -> (FracVal, Vec2Val) {
    if !cam.enabled {
        (old_scale, center)
    } else {
        let delta = apply_sensitivity_model(
            inputs,
            cam.wheel_sensitivity@,
            cam.pinch_sensitivity@,
        );
        if delta.num == 0 || !(fpos(viewport_size.x) && fpos(viewport_size.y)) {
            (old_scale, center)
        } else {
            let span = bounds_span_model(cam.bounds_model());
            let new_scale = solve_scale_model(
                old_scale,
                delta,
                cam.scale_range_model(),
                span,
                base_world_size,
            );
            let after = Vec2Val {
                x: fmul(base_world_size.x, new_scale),
                y: fmul(base_world_size.y, new_scale),
            };
            let proposed = if cam.zoom_to_cursor && cursor is Some {
                let nc = normalized_cursor_model(cursor->0, viewport_min, viewport_size);
                let before = Vec2Val {
                    x: fmul(base_world_size.x, old_scale),
                    y: fmul(base_world_size.y, old_scale),
                };
                project_model(center, nc, before, after)
            } else {
                center
            };
            (new_scale, clamp_zone_model(proposed, cam.bounds_model(), after))
        }
    }
}

/// Magnitude bounds under which the zoom pass can be computed exactly
/// in machine arithmetic; only what the pass actually reaches is
/// constrained.
pub open spec fn zoom_step_fits(
    cam: PanCam,
    old_scale: FracVal,
    center: Vec2Val,
    inputs: NormalizedZoomInputs,
    cursor: Option<Vec2Val>,
    viewport_min: Vec2Val,
    viewport_size: Vec2Val,
    base_world_size: Vec2Val,
) -> bool {
    if !cam.enabled {
        true
    } else {
        let delta = apply_sensitivity_model(
            inputs,
            cam.wheel_sensitivity@,
            cam.pinch_sensitivity@,
        );
        &&& apply_sensitivity_fits(inputs, cam.wheel_sensitivity@, cam.pinch_sensitivity@)
        &&& if delta.num == 0 || !(fpos(viewport_size.x) && fpos(viewport_size.y)) {
            true
        } else {
            let span = bounds_span_model(cam.bounds_model());
            let new_scale = solve_scale_model(
                old_scale,
                delta,
                cam.scale_range_model(),
                span,
                base_world_size,
            );
            let after = Vec2Val {
                x: fmul(base_world_size.x, new_scale),
                y: fmul(base_world_size.y, new_scale),
            };
            &&& bounds_span_fits(cam.bounds_model())
            &&& solve_scale_fits(old_scale, delta)
            &&& max_scale_fits(span, base_world_size)
            &&& fval_ok(after.x)
            &&& fval_ok(after.y)
            &&& clamp_zone_fits(cam.bounds_model(), after)
            &&& if cam.zoom_to_cursor && cursor is Some {
                let nc = normalized_cursor_model(cursor->0, viewport_min, viewport_size);
                let before = Vec2Val {
                    x: fmul(base_world_size.x, old_scale),
                    y: fmul(base_world_size.y, old_scale),
                };
                &&& normalized_cursor_fits(cursor->0, viewport_min, viewport_size)
                &&& fval_ok(before.x)
                &&& fval_ok(before.y)
                &&& project_fits(center, nc, before, after)
            } else {
                true
            }
        }
    }
}

/// One camera's zoom pass for one frame: reads the frame's normalized
/// zoom input and returns the camera's new scale and center.
pub fn do_camera_zoom(
    cam: &PanCam,
    old_scale: Frac,
    camera_center: Vec2,
    inputs: &NormalizedZoomInputs,
    cursor_position: Option<Vec2>,
    viewport_min: Vec2,
    viewport_size: Vec2,
    base_world_size: Vec2,
) -> (r: (Frac, Vec2))
    requires
        cam.wf(),
        old_scale.wf(),
        camera_center.wf(),
        inputs.wf(),
        cursor_position matches Some(c) ==> c.wf(),
        viewport_min.wf(),
        viewport_size.wf(),
        base_world_size.wf(),
        fpos(base_world_size@.x),
        fpos(base_world_size@.y),
        zoom_step_fits(*cam, old_scale@, camera_center@, *inputs, view_opt(cursor_position),
            viewport_min@, viewport_size@, base_world_size@),
    ensures
        r.0.wf(),
        r.1.wf(),
        (r.0@, r.1@) == zoom_step_model(*cam, old_scale@, camera_center@, *inputs,
            view_opt(cursor_position), viewport_min@, viewport_size@, base_world_size@),
        !cam.enabled ==> r == (old_scale, camera_center),
{
    if !cam.enabled {
        return (old_scale, camera_center);
    }
    let zoom_delta = inputs.apply_sensitivity(cam.wheel_sensitivity, cam.pinch_sensitivity);
    if zoom_delta.is_zero() || !viewport_size.is_pos() {
        return (old_scale, camera_center);
    }
    let rect = cam.rect();
    let span = rect.size();
    let range = cam.scale_range();
    let new_scale = crate::scale::solve_scale(
        old_scale,
        zoom_delta,
        &range,
        span,
        base_world_size,
    );
    let after = Vec2 {
        x: base_world_size.x.mul(new_scale),
        y: base_world_size.y.mul(new_scale),
    };
    let proposed = match (cursor_position, cam.zoom_to_cursor) {
        (Some(cpos), true) => {
            let nc = normalize_cursor_pos(cpos, viewport_min, viewport_size);
            let before = Vec2 {
                x: base_world_size.x.mul(old_scale),
                y: base_world_size.y.mul(old_scale),
            };
            crate::anchor::project(camera_center, nc, before, after)
        },
        _ => camera_center,
    };
    (new_scale, crate::safe_zone::clamp_to_safe_zone(proposed, &rect, after))
}

/// The view of an optional position.
pub open spec fn view_opt(v: Option<Vec2>) -> Option<Vec2Val> {
    match v {
        Some(p) => Some(p@),
        None => None,
    }
}

/// Law (anchor invariance at the zoom pass): for an enabled camera
/// zooming to a cursor, with nonzero zoom input, a real viewport,
/// positive base area and positive finite boundary widths, and a
/// boundary that does not bind the projected center, the committed
/// center keeps the world point under the cursor exactly fixed:
/// re-deriving the cursor's normalized position from the committed
/// center and half the new visible area yields exactly the normalized
/// cursor the pass used.
pub proof fn lemma_zoom_step_keeps_anchor(
    cam: PanCam,
    old_scale: FracVal,
    center: Vec2Val,
    inputs: NormalizedZoomInputs,
    cursor: Option<Vec2Val>,
    viewport_min: Vec2Val,
    viewport_size: Vec2Val,
    base_world_size: Vec2Val,
)
    requires
        cam.wf(),
        cam.enabled,
        cam.zoom_to_cursor,
        cursor is Some,
        inputs.wf(),
        fvalid(old_scale),
        fvalid(center.x),
        fvalid(center.y),
        fvalid(cursor->0.x),
        fvalid(cursor->0.y),
        fvalid(viewport_min.x),
        fvalid(viewport_min.y),
        fvalid(viewport_size.x),
        fvalid(viewport_size.y),
        fpos(viewport_size.x),
        fpos(viewport_size.y),
        fvalid(base_world_size.x),
        fvalid(base_world_size.y),
        fpos(base_world_size.x),
        fpos(base_world_size.y),
        apply_sensitivity_model(inputs, cam.wheel_sensitivity@, cam.pinch_sensitivity@).num
            != 0,
        bounds_span_model(cam.bounds_model()).x matches ExtVal::Fin(s) ==> fpos(s),
        bounds_span_model(cam.bounds_model()).y matches ExtVal::Fin(s) ==> fpos(s),
        ({
            let delta = apply_sensitivity_model(inputs, cam.wheel_sensitivity@,
                cam.pinch_sensitivity@);
            let span = bounds_span_model(cam.bounds_model());
            let new_scale = solve_scale_model(old_scale, delta, cam.scale_range_model(),
                span, base_world_size);
            let nc = normalized_cursor_model(cursor->0, viewport_min, viewport_size);
            let before = Vec2Val {
                x: fmul(base_world_size.x, old_scale),
                y: fmul(base_world_size.y, old_scale),
            };
            let after = Vec2Val {
                x: fmul(base_world_size.x, new_scale),
                y: fmul(base_world_size.y, new_scale),
            };
            clamp_zone_model(project_model(center, nc, before, after), cam.bounds_model(),
                after) == project_model(center, nc, before, after)
        }),
    ensures
        ({
            let delta = apply_sensitivity_model(inputs, cam.wheel_sensitivity@,
                cam.pinch_sensitivity@);
            let span = bounds_span_model(cam.bounds_model());
            let new_scale = solve_scale_model(old_scale, delta, cam.scale_range_model(),
                span, base_world_size);
            let nc = normalized_cursor_model(cursor->0, viewport_min, viewport_size);
            let before = Vec2Val {
                x: fmul(base_world_size.x, old_scale),
                y: fmul(base_world_size.y, old_scale),
            };
            let after = Vec2Val {
                x: fmul(base_world_size.x, new_scale),
                y: fmul(base_world_size.y, new_scale),
            };
            let anchor = anchor_model(center, nc, before);
            let committed = zoom_step_model(cam, old_scale, center, inputs, cursor,
                viewport_min, viewport_size, base_world_size).1;
            feq(fdiv(fsub(anchor.x, committed.x), fhalf(after.x)), nc.x)
                && feq(fdiv(fsub(anchor.y, committed.y), fhalf(after.y)), nc.y)
        }),
{
    let delta = apply_sensitivity_model(inputs, cam.wheel_sensitivity@, cam.pinch_sensitivity@);
    lemma_ops_valid(inputs.pinch@, cam.pinch_sensitivity@);
    lemma_ops_valid(inputs.wheel@, cam.wheel_sensitivity@);
    lemma_ops_valid(
        fmul(inputs.pinch@, cam.pinch_sensitivity@),
        fmul(inputs.wheel@, cam.wheel_sensitivity@),
    );
    lemma_ops_valid(fone(), delta);
    let cand = fmul(old_scale, fsub(fone(), delta));
    lemma_ops_valid(old_scale, fsub(fone(), delta));
    let b = cam.bounds_model();
    let span = bounds_span_model(b);
    if let ExtVal::Fin(lo) = b.min.x {
        if let ExtVal::Fin(hi) = b.max.x {
            lemma_ops_valid(hi, lo);
        }
    }
    if let ExtVal::Fin(lo) = b.min.y {
        if let ExtVal::Fin(hi) = b.max.y {
            lemma_ops_valid(hi, lo);
        }
    }
    lemma_scale_solver_positive(cand, cam.scale_range_model(), span, base_world_size);
    let new_scale = solve_scale_model(old_scale, delta, cam.scale_range_model(), span,
        base_world_size);
    lemma_fmul_pos(base_world_size.x, new_scale);
    lemma_fmul_pos(base_world_size.y, new_scale);
    lemma_ops_valid(base_world_size.x, old_scale);
    lemma_ops_valid(base_world_size.y, old_scale);
    let c = cursor->0;
    let two = FracVal { num: 2, den: 1 };
    lemma_ops_valid(c.x, viewport_min.x);
    lemma_ops_valid(c.y, viewport_min.y);
    lemma_fdiv_valid(fsub(c.x, viewport_min.x), viewport_size.x);
    lemma_fdiv_valid(fsub(c.y, viewport_min.y), viewport_size.y);
    lemma_ops_valid(fdiv(fsub(c.x, viewport_min.x), viewport_size.x), two);
    lemma_ops_valid(fdiv(fsub(c.y, viewport_min.y), viewport_size.y), two);
    lemma_ops_valid(fmul(fdiv(fsub(c.x, viewport_min.x), viewport_size.x), two), fone());
    lemma_ops_valid(fmul(fdiv(fsub(c.y, viewport_min.y), viewport_size.y), two), fone());
    let nc = normalized_cursor_model(c, viewport_min, viewport_size);
    assert(fvalid(nc.x) && fvalid(nc.y));
    let before = Vec2Val {
        x: fmul(base_world_size.x, old_scale),
        y: fmul(base_world_size.y, old_scale),
    };
    let after = Vec2Val {
        x: fmul(base_world_size.x, new_scale),
        y: fmul(base_world_size.y, new_scale),
    };
    lemma_anchor_invariance(center, nc, before, after);
}

/// The camera center after one frame's pan pass for one camera.
///
/// A disabled camera or a degenerate (empty) viewport means no update
/// this frame.  A drag delta counts only while a grab button is held
/// that was already held when the frame began and both a current and
/// a previous cursor sample exist; it is the device-pixel motion
/// converted to world space.  The keyboard delta is the unit
/// direction of the pressed move keys scaled by elapsed time, speed
/// and current scale.  Their combination is subtracted from the
/// center (the world moves opposite to the pointer), and the
/// safe-zone clamp bounds the result; a frame with no movement leaves
/// the center untouched without re-clamping it.
pub open spec fn movement_step_model(
    cam: PanCam,
    scale: FracVal,
    center: Vec2Val,
    visible_area_size: Vec2Val,
    viewport_size: Vec2Val,
    cursor: Option<Vec2Val>,
    last_cursor: Option<Vec2Val>,
    pressed: Seq<PointerButton>,
    just_pressed: Seq<PointerButton>,
    pressed_keys: Seq<Key>,
    delta_seconds: FracVal,
) -> Vec2Val {
    if !cam.enabled || !(fpos(viewport_size.x) && fpos(viewport_size.y)) {
        center
    } else {
        let grab = any_button_held(cam.grab_buttons@, pressed, just_pressed);
        let mouse_delta = if grab && cursor is Some && last_cursor is Some {
            let d = Vec2Val {
                x: fsub(flip_y(cursor->0).x, flip_y(last_cursor->0).x),
                y: fsub(flip_y(cursor->0).y, flip_y(last_cursor->0).y),
            };
            Vec2Val {
                x: fdiv(fmul(d.x, visible_area_size.x), viewport_size.x),
                y: fdiv(fmul(d.y, visible_area_size.y), viewport_size.y),
            }
        } else {
            Vec2Val { x: fzero(), y: fzero() }
        };
        let dir = normalize_dir_model(direction_model(cam.move_keys, pressed_keys));
        let keyboard_delta = Vec2Val {
            x: fmul(fmul(fmul(delta_seconds, dir.x), cam.speed@), scale),
            y: fmul(fmul(fmul(delta_seconds, dir.y), cam.speed@), scale),
        };
        let delta = Vec2Val {
            x: fsub(mouse_delta.x, keyboard_delta.x),
            y: fsub(mouse_delta.y, keyboard_delta.y),
        };
        if delta.x.num == 0 && delta.y.num == 0 {
            center
        } else {
            let proposed = Vec2Val {
                x: fsub(center.x, delta.x),
                y: fsub(center.y, delta.y),
            };
            clamp_zone_model(proposed, cam.bounds_model(), visible_area_size)
        }
    }
}

/// Magnitude bounds under which the pan pass can be computed exactly
/// in machine arithmetic.
pub open spec fn movement_step_fits(
    cam: PanCam,
    scale: FracVal,
    center: Vec2Val,
    visible_area_size: Vec2Val,
    viewport_size: Vec2Val,
    cursor: Option<Vec2Val>,
    last_cursor: Option<Vec2Val>,
    pressed: Seq<PointerButton>,
    just_pressed: Seq<PointerButton>,
    pressed_keys: Seq<Key>,
    delta_seconds: FracVal,
) -> bool {
    if !cam.enabled || !(fpos(viewport_size.x) && fpos(viewport_size.y)) {
        true
    } else {
        let grab = any_button_held(cam.grab_buttons@, pressed, just_pressed);
        let mouse_delta = if grab && cursor is Some && last_cursor is Some {
            let d = Vec2Val {
                x: fsub(flip_y(cursor->0).x, flip_y(last_cursor->0).x),
                y: fsub(flip_y(cursor->0).y, flip_y(last_cursor->0).y),
            };
            Vec2Val {
                x: fdiv(fmul(d.x, visible_area_size.x), viewport_size.x),
                y: fdiv(fmul(d.y, visible_area_size.y), viewport_size.y),
            }
        } else {
            Vec2Val { x: fzero(), y: fzero() }
        };
        let dir = normalize_dir_model(direction_model(cam.move_keys, pressed_keys));
        let keyboard_delta = Vec2Val {
            x: fmul(fmul(fmul(delta_seconds, dir.x), cam.speed@), scale),
            y: fmul(fmul(fmul(delta_seconds, dir.y), cam.speed@), scale),
        };
        let delta = Vec2Val {
            x: fsub(mouse_delta.x, keyboard_delta.x),
            y: fsub(mouse_delta.y, keyboard_delta.y),
        };
        &&& grab && cursor is Some && last_cursor is Some ==> {
            let d = Vec2Val {
                x: fsub(flip_y(cursor->0).x, flip_y(last_cursor->0).x),
                y: fsub(flip_y(cursor->0).y, flip_y(last_cursor->0).y),
            };
            &&& fval_ok(d.x)
            &&& fval_ok(d.y)
            &&& fval_ok(fmul(d.x, visible_area_size.x))
            &&& fval_ok(fmul(d.y, visible_area_size.y))
            &&& fval_ok(fdiv(fmul(d.x, visible_area_size.x), viewport_size.x))
            &&& fval_ok(fdiv(fmul(d.y, visible_area_size.y), viewport_size.y))
        }
        &&& fval_ok(fmul(delta_seconds, dir.x))
        &&& fval_ok(fmul(delta_seconds, dir.y))
        &&& fval_ok(fmul(fmul(delta_seconds, dir.x), cam.speed@))
        &&& fval_ok(fmul(fmul(delta_seconds, dir.y), cam.speed@))
        &&& fval_ok(keyboard_delta.x)
        &&& fval_ok(keyboard_delta.y)
        &&& fval_ok(delta.x)
        &&& fval_ok(delta.y)
        &&& !(delta.x.num == 0 && delta.y.num == 0) ==> {
            &&& fval_ok(fsub(center.x, delta.x))
            &&& fval_ok(fsub(center.y, delta.y))
            &&& clamp_zone_fits(cam.bounds_model(), visible_area_size)
        }
    }
}

/// One camera's pan pass for one frame: drag and keyboard movement
/// combined, converted to world space and clamped to the safe zone.
pub fn do_camera_movement(
    cam: &PanCam,
    scale: Frac,
    camera_center: Vec2,
    visible_area_size: Vec2,
    viewport_size: Vec2,
    current_cursor: Option<Vec2>,
    last_cursor: Option<Vec2>,
    pressed_buttons: &Vec<PointerButton>,
    just_pressed_buttons: &Vec<PointerButton>,
    pressed_keys: &Vec<Key>,
    delta_seconds: Frac,
) -> (r: Vec2)
    requires
        cam.wf(),
        scale.wf(),
        camera_center.wf(),
        visible_area_size.wf(),
        viewport_size.wf(),
        current_cursor matches Some(c) ==> c.wf(),
        last_cursor matches Some(c) ==> c.wf(),
        delta_seconds.wf(),
        movement_step_fits(*cam, scale@, camera_center@, visible_area_size@, viewport_size@,
            view_opt(current_cursor), view_opt(last_cursor), pressed_buttons@,
            just_pressed_buttons@, pressed_keys@, delta_seconds@),
    ensures
        r.wf(),
        r@ == movement_step_model(*cam, scale@, camera_center@, visible_area_size@,
            viewport_size@, view_opt(current_cursor), view_opt(last_cursor),
            pressed_buttons@, just_pressed_buttons@, pressed_keys@, delta_seconds@),
        !cam.enabled ==> r == camera_center,
        !(fpos(viewport_size@.x) && fpos(viewport_size@.y)) ==> r == camera_center,
{
    if !cam.enabled || !viewport_size.is_pos() {
        return camera_center;
    }
    let grab = crate::camera::any_grab_button_held(
        &cam.grab_buttons,
        pressed_buttons,
        just_pressed_buttons,
    );
    let mut mouse_delta = Vec2 { x: Frac::zero(), y: Frac::zero() };
    if grab {
        match (current_cursor, last_cursor) {
            (Some(c), Some(l)) => {
                let dx = c.x.sub(l.x);
                let dy = c.y.neg().sub(l.y.neg());
                mouse_delta = Vec2 {
                    x: dx.mul(visible_area_size.x).div(viewport_size.x),
                    y: dy.mul(visible_area_size.y).div(viewport_size.y),
                };
            },
            _ => {},
        }
    }
    let dir = normalize_dir(cam.move_keys.direction(pressed_keys));
    let keyboard_delta = Vec2 {
        x: delta_seconds.mul(dir.x).mul(cam.speed).mul(scale),
        y: delta_seconds.mul(dir.y).mul(cam.speed).mul(scale),
    };
    let delta = Vec2 {
        x: mouse_delta.x.sub(keyboard_delta.x),
        y: mouse_delta.y.sub(keyboard_delta.y),
    };
    if delta.is_zero() {
        return camera_center;
    }
    let proposed = Vec2 {
        x: camera_center.x.sub(delta.x),
        y: camera_center.y.sub(delta.y),
    };
    crate::safe_zone::clamp_to_safe_zone(proposed, &cam.rect(), visible_area_size)
}

} // verus!
