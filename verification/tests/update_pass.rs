//! The per-frame zoom and pan passes, end to end.

use pancam::DirectionKeys;
use pancam::Ext;
use pancam::Frac;
use pancam::Key;
use pancam::NormalizedZoomInputs;
use pancam::PanCam;
use pancam::PointerButton;
use pancam::Vec2;
use pancam::WheelEvent;
use pancam::WheelUnit;
use pancam::do_camera_movement;
use pancam::do_camera_zoom;

fn vec2(x: i64, y: i64) -> Vec2 {
    Vec2 { x: Frac::from_whole(x), y: Frac::from_whole(y) }
}

fn open_cam() -> PanCam {
    PanCam::default()
}

fn pinch_only(delta: Frac) -> NormalizedZoomInputs {
    NormalizedZoomInputs { pinch: delta, wheel: Frac::zero() }
}

#[test]
fn disabled_camera_ignores_all_input() {
    let cam = PanCam { enabled: false, ..open_cam() };
    let (scale, center) = do_camera_zoom(
        &cam,
        Frac::from_whole(1),
        vec2(3, 4),
        &pinch_only(Frac::new(1, 2)),
        Some(vec2(50, 50)),
        vec2(0, 0),
        vec2(100, 100),
        vec2(100, 100),
    );
    assert_eq!(scale, Frac::from_whole(1));
    assert_eq!(center, vec2(3, 4));

    let moved = do_camera_movement(
        &cam,
        Frac::from_whole(1),
        vec2(3, 4),
        vec2(100, 100),
        vec2(100, 100),
        Some(vec2(10, 10)),
        Some(vec2(0, 0)),
        &vec![PointerButton::Left],
        &Vec::new(),
        &vec![Key::KeyW],
        Frac::from_whole(1),
    );
    assert_eq!(moved, vec2(3, 4));
}

#[test]
fn zero_zoom_delta_changes_nothing() {
    let cam = open_cam();
    let (scale, center) = do_camera_zoom(
        &cam,
        Frac::new(3, 2),
        vec2(7, -2),
        &pinch_only(Frac::zero()),
        Some(vec2(50, 50)),
        vec2(0, 0),
        vec2(100, 100),
        vec2(100, 100),
    );
    assert_eq!(scale, Frac::new(3, 2));
    assert_eq!(center, vec2(7, -2));
}

#[test]
fn center_anchored_zoom_keeps_the_center() {
    let cam = PanCam { zoom_to_cursor: false, ..open_cam() };
    let (scale, center) = do_camera_zoom(
        &cam,
        Frac::from_whole(1),
        vec2(7, -2),
        &pinch_only(Frac::new(1, 2)),
        Some(vec2(50, 50)),
        vec2(0, 0),
        vec2(100, 100),
        vec2(100, 100),
    );
    assert!(scale.same_value(Frac::new(1, 2)));
    assert_eq!(center, vec2(7, -2));
}

// The cursor sits at the right edge of the viewport; halving the
// scale pulls the center halfway toward the anchored edge.
#[test]
fn zoom_to_cursor_anchors_the_point_under_the_cursor() {
    let cam = open_cam();
    let (scale, center) = do_camera_zoom(
        &cam,
        Frac::from_whole(1),
        vec2(0, 0),
        &pinch_only(Frac::new(1, 2)),
        Some(vec2(100, 50)),
        vec2(0, 0),
        vec2(100, 100),
        vec2(100, 100),
    );
    assert!(scale.same_value(Frac::new(1, 2)));
    assert!(center.x.same_value(Frac::from_whole(25)));
    assert!(center.y.same_value(Frac::zero()));
}

// A wheel scroll of five hundred pixels normalizes to a delta of one
// half and halves the scale.
#[test]
fn wheel_scroll_drives_the_zoom_pass() {
    let cam = PanCam { zoom_to_cursor: false, ..open_cam() };
    let wheel = vec![WheelEvent { unit: WheelUnit::Pixel, delta: Frac::from_whole(500) }];
    let pinch: Vec<Frac> = Vec::new();
    let inputs = NormalizedZoomInputs::from_events(&wheel, &pinch);
    let (scale, center) = do_camera_zoom(
        &cam,
        Frac::from_whole(1),
        vec2(0, 0),
        &inputs,
        None,
        vec2(0, 0),
        vec2(100, 100),
        vec2(100, 100),
    );
    assert!(scale.same_value(Frac::new(1, 2)));
    assert_eq!(center, vec2(0, 0));
}

// Zooming out without cursor anchoring still commits the center
// through the safe-zone clamp at the new visible size: a center near
// the boundary cannot be left hanging outside it.
#[test]
fn zoom_out_without_cursor_is_still_clamped() {
    let cam = PanCam {
        zoom_to_cursor: false,
        min_x: Ext::Fin(Frac::from_whole(-10)),
        max_x: Ext::Fin(Frac::from_whole(10)),
        min_y: Ext::Fin(Frac::from_whole(-10)),
        max_y: Ext::Fin(Frac::from_whole(10)),
        ..PanCam::default()
    };
    let inputs = NormalizedZoomInputs { pinch: Frac::zero(), wheel: Frac::from_whole(-1) };
    let (scale, center) = do_camera_zoom(
        &cam,
        Frac::from_whole(1),
        vec2(100, 0),
        &inputs,
        None,
        vec2(0, 0),
        vec2(10, 10),
        vec2(10, 10),
    );
    // the scale doubles, exactly to the boundary-derived ceiling
    assert!(scale.same_value(Frac::from_whole(2)));
    // at visible size 20 the safe zone collapses to the single point
    // (0, 0), and the old center (100, 0) is pulled back to it
    assert!(center.x.same_value(Frac::zero()));
    assert!(center.y.same_value(Frac::zero()));
}

// A degenerate (zero-sized) viewport means no zoom update at all.
#[test]
fn empty_viewport_skips_the_zoom_update() {
    let cam = open_cam();
    let (scale, center) = do_camera_zoom(
        &cam,
        Frac::from_whole(1),
        vec2(3, 4),
        &pinch_only(Frac::new(1, 2)),
        Some(vec2(0, 0)),
        vec2(0, 0),
        vec2(0, 0),
        vec2(100, 100),
    );
    assert_eq!(scale, Frac::from_whole(1));
    assert_eq!(center, vec2(3, 4));
}

// A degenerate viewport means no pan update either — the keyboard
// included, not just the drag conversion.
#[test]
fn empty_viewport_skips_the_movement_update() {
    let cam = open_cam();
    let moved = do_camera_movement(
        &cam,
        Frac::from_whole(1),
        vec2(3, 4),
        vec2(0, 0),
        vec2(0, 0),
        None,
        None,
        &Vec::new(),
        &Vec::new(),
        &vec![Key::ArrowUp],
        Frac::from_whole(1),
    );
    assert_eq!(moved, vec2(3, 4));
}

// Dragging with a held grab button moves the world opposite to the
// pointer, in world units.
#[test]
fn drag_moves_the_world_against_the_pointer() {
    let cam = open_cam();
    let moved = do_camera_movement(
        &cam,
        Frac::from_whole(1),
        vec2(0, 0),
        vec2(100, 100),
        vec2(100, 100),
        Some(vec2(10, 5)),
        Some(vec2(0, 0)),
        &vec![PointerButton::Left],
        &Vec::new(),
        &Vec::new(),
        Frac::zero(),
    );
    // device delta (10, 5) flips to (10, -5) in world orientation and
    // is subtracted from the center
    assert!(moved.x.same_value(Frac::from_whole(-10)));
    assert!(moved.y.same_value(Frac::from_whole(5)));
}

// A button press that begins this frame must not cause a jump.
#[test]
fn a_press_that_begins_this_frame_does_not_drag() {
    let cam = open_cam();
    let moved = do_camera_movement(
        &cam,
        Frac::from_whole(1),
        vec2(0, 0),
        vec2(100, 100),
        vec2(100, 100),
        Some(vec2(10, 5)),
        Some(vec2(0, 0)),
        &vec![PointerButton::Left],
        &vec![PointerButton::Left],
        &Vec::new(),
        Frac::zero(),
    );
    assert_eq!(moved, vec2(0, 0));
}

// Keyboard movement: speed times scale times elapsed time, toward
// the pressed direction, also without any cursor sample.
#[test]
fn keyboard_moves_the_camera_toward_the_pressed_direction() {
    let cam = open_cam();
    let moved = do_camera_movement(
        &cam,
        Frac::from_whole(1),
        vec2(0, 0),
        vec2(100, 100),
        vec2(100, 100),
        None,
        None,
        &Vec::new(),
        &Vec::new(),
        &vec![Key::ArrowUp],
        Frac::from_whole(1),
    );
    assert!(moved.x.same_value(Frac::zero()));
    assert!(moved.y.same_value(Frac::from_whole(200)));
}

// A diagonal keyboard direction is normalized to unit length (with
// the library's rational stand-in for the diagonal component).
#[test]
fn diagonal_keyboard_movement_is_normalized() {
    let cam = open_cam();
    let moved = do_camera_movement(
        &cam,
        Frac::from_whole(1),
        vec2(0, 0),
        vec2(100, 100),
        vec2(100, 100),
        None,
        None,
        &Vec::new(),
        &Vec::new(),
        &vec![Key::ArrowUp, Key::ArrowRight],
        Frac::from_whole(1),
    );
    // 200 * 408 / 577 per axis, toward the upper right
    assert!(moved.x.same_value(Frac::new(81600, 577)));
    assert!(moved.y.same_value(Frac::new(81600, 577)));
}

// Drag against a finite boundary: the result stays inside the safe
// zone.
#[test]
fn drag_is_clamped_to_the_safe_zone() {
    let cam = PanCam {
        min_x: Ext::Fin(Frac::from_whole(-100)),
        max_x: Ext::Fin(Frac::from_whole(100)),
        ..open_cam()
    };
    let moved = do_camera_movement(
        &cam,
        Frac::from_whole(1),
        vec2(40, 0),
        vec2(100, 100),
        vec2(100, 100),
        Some(vec2(0, 0)),
        Some(vec2(500, 0)),
        &vec![PointerButton::Left],
        &Vec::new(),
        &Vec::new(),
        Frac::zero(),
    );
    // the drag proposes x = 40 + 500 = 540; the safe zone ends at
    // 100 - 50 = 50
    assert!(moved.x.same_value(Frac::from_whole(50)));
    assert!(moved.y.same_value(Frac::zero()));
}

// The direction keys of the stock bindings.
#[test]
fn direction_combines_opposing_keys_to_zero() {
    let keys = DirectionKeys::arrows_and_wasd();
    let d = keys.direction(&vec![Key::ArrowLeft, Key::KeyD]);
    assert!(d.x.same_value(Frac::zero()));
    assert!(d.y.same_value(Frac::zero()));
    let d = keys.direction(&vec![Key::KeyA, Key::KeyS]);
    assert!(d.x.same_value(Frac::from_whole(-1)));
    assert!(d.y.same_value(Frac::from_whole(-1)));
}

#[test]
fn stock_configuration_has_the_documented_limits() {
    let cam = PanCam::default();
    assert!(cam.enabled);
    assert!(cam.zoom_to_cursor);
    assert!(cam.speed.same_value(Frac::from_whole(200)));
    match cam.min_scale {
        Ext::Fin(f) => assert!(f.same_value(Frac::new(1, 100000))),
        _ => panic!("stock minimum scale must be finite"),
    }
    assert_eq!(cam.max_scale, Ext::PosInf);
    assert_eq!(cam.min_x, Ext::NegInf);
    assert_eq!(cam.max_x, Ext::PosInf);
    assert_eq!(cam.min_y, Ext::NegInf);
    assert_eq!(cam.max_y, Ext::PosInf);
    assert_eq!(cam.grab_buttons.len(), 3);
}
