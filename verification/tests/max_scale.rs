//! The maximum safe zoom-out scale, per axis, against a square
//! 100x100 viewport whose world-space size at scale one matches.

use pancam::Ext;
use pancam::ExtVec2;
use pancam::Frac;
use pancam::Vec2;
use pancam::max_scale_within_bounds;

fn square_base() -> Vec2 {
    Vec2::new(Frac::from_whole(100), Frac::from_whole(100))
}

fn fin(n: i64) -> Ext {
    Ext::Fin(Frac::from_whole(n))
}

fn expect_fin(e: Ext) -> Frac {
    match e {
        Ext::Fin(f) => f,
        _ => panic!("expected a finite scale"),
    }
}

#[test]
fn bounds_matching_window_width_have_max_scale_1() {
    let bounded = ExtVec2::new(fin(100), Ext::PosInf);
    let r = max_scale_within_bounds(bounded, square_base());
    assert!(expect_fin(r.x).same_value(Frac::from_whole(1)));
}

// boundaries are 1/2 the size of the projection window
#[test]
fn bounds_half_of_window_width_have_half_max_scale() {
    let bounded = ExtVec2 { x: fin(50), y: Ext::PosInf };
    let r = max_scale_within_bounds(bounded, square_base());
    assert!(expect_fin(r.x).same_value(Frac::new(1, 2)));
}

// boundaries are 2x the size of the projection window
#[test]
fn bounds_twice_of_window_width_have_max_scale_2() {
    let bounded = ExtVec2 { x: fin(200), y: Ext::PosInf };
    let r = max_scale_within_bounds(bounded, square_base());
    assert!(expect_fin(r.x).same_value(Frac::from_whole(2)));
}

#[test]
fn bounds_matching_window_height_have_max_scale_1() {
    let bounded = ExtVec2 { x: Ext::PosInf, y: fin(100) };
    let r = max_scale_within_bounds(bounded, square_base());
    assert!(expect_fin(r.y).same_value(Frac::from_whole(1)));
}

// boundaries are 1/2 the size of the projection window
#[test]
fn bounds_half_of_window_height_have_half_max_scale() {
    let bounded = ExtVec2 { x: Ext::PosInf, y: fin(50) };
    let r = max_scale_within_bounds(bounded, square_base());
    assert!(expect_fin(r.y).same_value(Frac::new(1, 2)));
}

// boundaries are 2x the size of the projection window
#[test]
fn bounds_twice_of_window_height_have_max_scale_2() {
    let bounded = ExtVec2 { x: Ext::PosInf, y: fin(200) };
    let r = max_scale_within_bounds(bounded, square_base());
    assert!(expect_fin(r.y).same_value(Frac::from_whole(2)));
}
