//! Panning and zooming logic for a 2-D orthographic camera.
//!
//! The library turns one frame's sampled input (wheel scrolls, pinch
//! gestures, cursor position, button and key state) into a new camera
//! scale and center, enforcing configurable pan boundaries and zoom
//! limits, with optional zoom-to-cursor anchoring.  All coordinates
//! and scales are exact rational numbers ([`Frac`]), so every
//! contract states the result of a computation exactly; the host
//! engine converts its own numeric types at the boundary.
//!
//! The host calls [`do_camera_zoom`] and [`do_camera_movement`] once
//! per camera per frame with plain sampled values and commits the
//! returned scale and center; [`clamp_to_safe_zone`] doubles as the
//! explicit re-clamp entry point after a viewport resize.

pub mod anchor;
pub mod camera;
pub mod ext;
pub mod frac;
pub mod geom;
pub mod safe_zone;
pub mod scale;
pub mod update;
pub mod zoom_inputs;

pub use anchor::cursor_world_anchor;
pub use anchor::project;
pub use camera::DirectionKeys;
pub use camera::Key;
pub use camera::PanCam;
pub use camera::PointerButton;
pub use ext::Ext;
pub use ext::ExtVal;
pub use frac::Frac;
pub use frac::FracVal;
pub use geom::BoundsRect;
pub use geom::ExtVec2;
pub use geom::ScaleRange;
pub use geom::Vec2;
pub use safe_zone::clamp_to_safe_zone;
pub use scale::constrain_proj_scale;
pub use scale::max_scale_within_bounds;
pub use scale::solve_scale;
pub use update::do_camera_movement;
pub use update::do_camera_zoom;
pub use update::normalize_cursor_pos;
pub use zoom_inputs::NormalizedZoomInputs;
pub use zoom_inputs::WheelEvent;
pub use zoom_inputs::WheelUnit;
pub use zoom_inputs::scroll_offset_from_events;
