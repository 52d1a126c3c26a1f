//! Concrete checks of the library's general laws.

use pancam::BoundsRect;
use pancam::Ext;
use pancam::ExtVec2;
use pancam::Frac;
use pancam::ScaleRange;
use pancam::Vec2;
use pancam::clamp_to_safe_zone;
use pancam::constrain_proj_scale;
use pancam::project;
use pancam::cursor_world_anchor;

fn vec2(x: i64, y: i64) -> Vec2 {
    Vec2 { x: Frac::from_whole(x), y: Frac::from_whole(y) }
}

fn fin(n: i64) -> Ext {
    Ext::Fin(Frac::from_whole(n))
}

// The solver never returns a scale whose visible area exceeds a
// finite boundary span, however far the candidate zooms out.
#[test]
fn solver_never_exceeds_a_finite_boundary() {
    let range = ScaleRange { min: Ext::Fin(Frac::new(1, 100000)), max: Ext::PosInf };
    let span = ExtVec2 { x: fin(50), y: fin(300) };
    let base = vec2(100, 100);
    let r = constrain_proj_scale(Frac::from_whole(11), span, &range, base);
    // visible width at the result: r * 100 must stay within 50
    assert!(r.mul(Frac::from_whole(100)).le(Frac::from_whole(50)));
    assert!(r.same_value(Frac::new(1, 2)));
}

// The solver's output lies in the configured scale interval.
#[test]
fn solver_output_stays_in_the_scale_interval() {
    let range = ScaleRange {
        min: Ext::Fin(Frac::from_whole(1)),
        max: Ext::Fin(Frac::from_whole(2)),
    };
    let span = ExtVec2 { x: Ext::PosInf, y: Ext::PosInf };
    let base = vec2(100, 100);
    let low = constrain_proj_scale(Frac::new(1, 10), span, &range, base);
    assert!(low.same_value(Frac::from_whole(1)));
    let high = constrain_proj_scale(Frac::from_whole(7), span, &range, base);
    assert!(high.same_value(Frac::from_whole(2)));
    let mid = constrain_proj_scale(Frac::new(3, 2), span, &range, base);
    assert!(mid.same_value(Frac::new(3, 2)));
}

// Anchor invariance: re-deriving the normalized cursor from the
// projected center recovers it exactly, also off the axes.
#[test]
fn anchor_stays_under_the_cursor() {
    let center = Vec2 { x: Frac::from_whole(3), y: Frac::from_whole(4) };
    let nc = Vec2 { x: Frac::new(1, 2), y: Frac::new(-1, 3) };
    let before = vec2(100, 80);
    let after = vec2(37, 59);
    let anchor = cursor_world_anchor(center, nc, before);
    let moved = project(center, nc, before, after);
    let re_x = anchor.x.sub(moved.x).div(after.x.half());
    let re_y = anchor.y.sub(moved.y).div(after.y.half());
    assert!(re_x.same_value(nc.x));
    assert!(re_y.same_value(nc.y));
}

// Reduction cancels every common factor and leaves the value
// unchanged, so a host can keep long-running state small.
#[test]
fn reduce_cancels_common_factors() {
    assert_eq!(Frac::new(100, 100).reduce(), Frac::from_whole(1));
    assert_eq!(Frac::new(-50, 100).reduce(), Frac::new(-1, 2));
    assert_eq!(Frac::new(0, 7).reduce(), Frac::zero());
    assert_eq!(Frac::new(3, 4).reduce(), Frac::new(3, 4));
    let chained = Frac::new(1, 2).mul(Frac::new(2, 3)).mul(Frac::new(3, 4));
    assert_eq!(chained.reduce(), Frac::new(1, 4));
}

// Clamping twice with the same boundary and visible area returns the
// same value as clamping once, both in the ordinary and in the
// midpoint-snap case.
#[test]
fn safe_zone_clamp_is_idempotent() {
    let bounds = BoundsRect {
        min: ExtVec2 { x: fin(-40), y: Ext::NegInf },
        max: ExtVec2 { x: fin(40), y: fin(10) },
    };
    let wide = vec2(100, 4);
    let once = clamp_to_safe_zone(vec2(1000, 2000), &bounds, wide);
    let twice = clamp_to_safe_zone(once, &bounds, wide);
    assert_eq!(once, twice);

    let narrow = vec2(30, 4);
    let once = clamp_to_safe_zone(vec2(-55, -3), &bounds, narrow);
    let twice = clamp_to_safe_zone(once, &bounds, narrow);
    assert_eq!(once, twice);
}

// A fully open boundary makes the clamp a no-op and skips the
// solver's ceiling stage.
#[test]
fn fully_open_boundary_changes_nothing() {
    let bounds = BoundsRect::unbounded();
    let pos = Vec2 { x: Frac::new(123, 7), y: Frac::from_whole(-999) };
    let r = clamp_to_safe_zone(pos, &bounds, vec2(100, 100));
    assert_eq!(r, pos);

    let range = ScaleRange {
        min: Ext::Fin(Frac::new(1, 100000)),
        max: Ext::Fin(Frac::from_whole(3)),
    };
    let span = ExtVec2 { x: Ext::PosInf, y: Ext::PosInf };
    let r = constrain_proj_scale(Frac::from_whole(5), span, &range, vec2(100, 100));
    assert!(r.same_value(Frac::from_whole(3)));
}
