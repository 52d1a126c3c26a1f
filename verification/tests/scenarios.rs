//! End-to-end scenarios with exact expected values.

use pancam::BoundsRect;
use pancam::Ext;
use pancam::ExtVec2;
use pancam::Frac;
use pancam::ScaleRange;
use pancam::Vec2;
use pancam::clamp_to_safe_zone;
use pancam::constrain_proj_scale;
use pancam::cursor_world_anchor;
use pancam::project;
use pancam::solve_scale;

fn vec2(x: i64, y: i64) -> Vec2 {
    Vec2::new(Frac::from_whole(x), Frac::from_whole(y))
}

fn fin(n: i64) -> Ext {
    Ext::Fin(Frac::from_whole(n))
}

// Pure zoom with no limits: a zoom delta of one half halves the scale.
#[test]
fn pure_zoom_without_bounds_halves_the_scale() {
    let range = ScaleRange { min: Ext::Fin(Frac::new(1, 100000)), max: Ext::PosInf };
    let span = ExtVec2 { x: Ext::PosInf, y: Ext::PosInf };
    let base = vec2(100, 100);
    let r = solve_scale(Frac::from_whole(1), Frac::new(1, 2), &range, span, base);
    assert!(r.same_value(Frac::new(1, 2)));
}

// Bounded zoom-out ceiling: a candidate scale of two is capped at the
// x-axis ceiling of one half.
#[test]
fn bounded_zoom_out_is_capped_by_the_ceiling() {
    let range = ScaleRange { min: Ext::Fin(Frac::new(1, 100000)), max: Ext::PosInf };
    let span = ExtVec2 { x: fin(50), y: Ext::PosInf };
    let base = vec2(100, 100);
    let r = constrain_proj_scale(Frac::from_whole(2), span, &range, base);
    assert!(r.same_value(Frac::new(1, 2)));
}

// Drag clamp: the boundary is narrower than the viewport on both
// axes, so any proposed center snaps to the boundary midpoint.
#[test]
fn drag_clamp_snaps_to_the_midpoint_of_a_narrow_boundary() {
    let bounds = BoundsRect {
        min: ExtVec2 { x: fin(-40), y: fin(-40) },
        max: ExtVec2 { x: fin(40), y: fin(40) },
    };
    let r = clamp_to_safe_zone(vec2(1000, 0), &bounds, vec2(100, 100));
    assert!(r.x.same_value(Frac::zero()));
    assert!(r.y.same_value(Frac::zero()));
}

// Zoom-to-cursor anchor: with the cursor at the far right edge, the
// anchor is at the visible area's right edge and halving the visible
// area moves the center halfway toward the anchor.
#[test]
fn zoom_to_cursor_moves_the_center_toward_the_anchor() {
    let center = vec2(0, 0);
    let nc = vec2(1, 0);
    let before = vec2(100, 100);
    let after = vec2(50, 50);
    let anchor = cursor_world_anchor(center, nc, before);
    assert!(anchor.x.same_value(Frac::from_whole(50)));
    assert!(anchor.y.same_value(Frac::zero()));
    let r = project(center, nc, before, after);
    assert!(r.x.same_value(Frac::from_whole(25)));
    assert!(r.y.same_value(Frac::zero()));
}
