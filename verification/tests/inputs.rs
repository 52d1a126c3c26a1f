//! Zoom-input normalization: units, factors and sensitivities.

use pancam::Frac;
use pancam::NormalizedZoomInputs;
use pancam::WheelEvent;
use pancam::WheelUnit;
use pancam::scroll_offset_from_events;

fn pixel(n: i64) -> WheelEvent {
    WheelEvent { unit: WheelUnit::Pixel, delta: Frac::from_whole(n) }
}

fn line(n: i64) -> WheelEvent {
    WheelEvent { unit: WheelUnit::Line, delta: Frac::from_whole(n) }
}

// A line counts as one hundred pixels; pixel deltas count as they
// are; everything is summed.
#[test]
fn wheel_lines_count_as_hundred_pixels() {
    let events = vec![pixel(30), line(2)];
    let r = scroll_offset_from_events(&events);
    assert!(r.same_value(Frac::from_whole(230)));
}

#[test]
fn wheel_sum_of_no_events_is_zero() {
    let events: Vec<WheelEvent> = Vec::new();
    let r = scroll_offset_from_events(&events);
    assert!(r.same_value(Frac::zero()));
}

// The wheel total is scaled by one thousandth; pinch deltas are
// summed unscaled.
#[test]
fn from_events_normalizes_each_source() {
    let wheel = vec![pixel(30), line(2)];
    let pinch = vec![Frac::new(1, 10), Frac::new(2, 10)];
    let inputs = NormalizedZoomInputs::from_events(&wheel, &pinch);
    assert!(inputs.wheel.same_value(Frac::new(230, 1000)));
    assert!(inputs.pinch.same_value(Frac::new(3, 10)));
}

// Final delta = wheel_sum * wheel_sensitivity + pinch_sum *
// pinch_sensitivity.
#[test]
fn sensitivities_scale_each_source_before_the_sum() {
    let inputs = NormalizedZoomInputs {
        wheel: Frac::new(23, 100),
        pinch: Frac::new(3, 10),
    };
    let r = inputs.apply_sensitivity(Frac::from_whole(2), Frac::from_whole(1));
    // 0.23 * 2 + 0.3 * 1 = 0.76
    assert!(r.same_value(Frac::new(76, 100)));
}

#[test]
fn no_input_or_exactly_cancelling_input_is_empty() {
    let wheel = vec![pixel(5), pixel(-5)];
    let pinch: Vec<Frac> = Vec::new();
    let inputs = NormalizedZoomInputs::from_events(&wheel, &pinch);
    assert!(inputs.is_empty());

    let inputs = NormalizedZoomInputs {
        wheel: Frac::new(1, 1000),
        pinch: Frac::zero(),
    };
    assert!(!inputs.is_empty());
}
