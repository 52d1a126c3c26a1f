//! Normalizing one frame's raw zoom input.
//!
//! Wheel scrolls arrive as per-event deltas in pixels or lines, pinch
//! gestures as already-normalized scalars.  Line deltas are turned
//! into pixel-equivalent magnitudes, the wheel total is scaled down
//! into the pinch range, and per-source sensitivities then combine
//! the two totals into the single zoom delta of the frame.

use vstd::prelude::*;

use crate::frac::Frac;
use crate::frac::FracVal;
use crate::frac::fadd;
use crate::frac::fmul;
use crate::frac::fval_ok;
use crate::frac::fzero;

verus! {

/// The unit a wheel event's delta is measured in.
#[derive(Clone, Copy, PartialEq, Eq, Structural, Debug)]
pub enum WheelUnit {
    /// The delta is a number of pixels.
    Pixel,
    /// The delta is a number of text lines.
    Line,
}

/// One raw wheel-scroll event: a signed delta and its unit.
#[derive(Clone, Copy, Debug)]
pub struct WheelEvent {
    /// The unit of `delta`.
    pub unit: WheelUnit,
    /// The signed scroll amount; positive scrolls up.
    pub delta: Frac,
}

/// How many pixels one line of scrolling stands for.
pub open spec fn pixels_per_line() -> FracVal {
    FracVal { num: 100, den: 1 }
}

/// The factor that brings a summed wheel delta into the numeric range
/// of pinch deltas.
pub open spec fn wheel_normalize_factor() -> FracVal {
    FracVal { num: 1, den: 1000 }
}

/// A wheel event's pixel-equivalent delta.
pub open spec fn wheel_weight(ev: WheelEvent) -> FracVal {
    match ev.unit {
        WheelUnit::Pixel => ev.delta@,
        WheelUnit::Line => fmul(ev.delta@, pixels_per_line()),
    }
}

/// The pixel-equivalent total of a frame's wheel events, summed in
/// event order.
pub open spec fn wheel_sum(evs: Seq<WheelEvent>) -> FracVal
    decreases evs.len(),
{
    if evs.len() == 0 {
        fzero()
    } else {
        fadd(wheel_sum(evs.drop_last()), wheel_weight(evs.last()))
    }
}

/// Magnitude bounds under which the wheel total can be computed
/// exactly in machine arithmetic: every event and every partial sum
/// stays within range.
pub open spec fn wheel_sum_fits(evs: Seq<WheelEvent>) -> bool
    decreases evs.len(),
{
    if evs.len() == 0 {
        true
    } else {
        &&& wheel_sum_fits(evs.drop_last())
        &&& fval_ok(evs.last().delta@)
        &&& fval_ok(wheel_weight(evs.last()))
        &&& fval_ok(fadd(wheel_sum(evs.drop_last()), wheel_weight(evs.last())))
    }
}

proof fn lemma_wheel_sum_fits_prefix(evs: Seq<WheelEvent>, i: int)
    requires
        wheel_sum_fits(evs),
        0 <= i <= evs.len(),
    ensures
        wheel_sum_fits(evs.take(i)),
    decreases evs.len(),
{
    if i == evs.len() {
        assert(evs.take(i) =~= evs);
    } else {
        lemma_wheel_sum_fits_prefix(evs.drop_last(), i);
        assert(evs.drop_last().take(i) =~= evs.take(i));
    }
}

/// Sums a frame's wheel events into one signed scroll offset,
/// counting each line delta as [`pixels_per_line`] pixels.
pub fn scroll_offset_from_events(events: &Vec<WheelEvent>) -> (r: Frac)
    requires
        wheel_sum_fits(events@),
    ensures
        r.wf(),
        r@ == wheel_sum(events@),
{
    let mut acc = Frac::zero();
    let mut i: usize = 0;
    while i < events.len()
        invariant
            0 <= i <= events@.len(),
            acc.wf(),
            acc@ == wheel_sum(events@.take(i as int)),
            wheel_sum_fits(events@),
        decreases events@.len() - i,
    {
        proof {
            lemma_wheel_sum_fits_prefix(events@, i + 1);
            assert(events@.take(i + 1).drop_last() =~= events@.take(i as int));
            assert(events@.take(i + 1).last() == events@[i as int]);
        }
        let ev = events[i];
        let w = match ev.unit {
            WheelUnit::Pixel => ev.delta,
            WheelUnit::Line => ev.delta.mul(Frac::from_whole(100)),
        };
        acc = acc.add(w);
        i = i + 1;
    }
    proof {
        assert(events@.take(events@.len() as int) =~= events@);
    }
    acc
}

/// The total of a frame's pinch deltas, summed in event order.
pub open spec fn pinch_sum(evs: Seq<Frac>) -> FracVal
    decreases evs.len(),
{
    if evs.len() == 0 {
        fzero()
    } else {
        fadd(pinch_sum(evs.drop_last()), evs.last()@)
    }
}

/// Magnitude bounds under which the pinch total can be computed
/// exactly in machine arithmetic.
pub open spec fn pinch_sum_fits(evs: Seq<Frac>) -> bool
    decreases evs.len(),
{
    if evs.len() == 0 {
        true
    } else {
        &&& pinch_sum_fits(evs.drop_last())
        &&& fval_ok(evs.last()@)
        &&& fval_ok(fadd(pinch_sum(evs.drop_last()), evs.last()@))
    }
}

proof fn lemma_pinch_sum_fits_prefix(evs: Seq<Frac>, i: int)
    requires
        pinch_sum_fits(evs),
        0 <= i <= evs.len(),
    ensures
        pinch_sum_fits(evs.take(i)),
    decreases evs.len(),
{
    if i == evs.len() {
        assert(evs.take(i) =~= evs);
    } else {
        lemma_pinch_sum_fits_prefix(evs.drop_last(), i);
        assert(evs.drop_last().take(i) =~= evs.take(i));
    }
}

fn sum_pinch_events(events: &Vec<Frac>) -> (r: Frac)
    requires
        pinch_sum_fits(events@),
    ensures
        r.wf(),
        r@ == pinch_sum(events@),
{
    let mut acc = Frac::zero();
    let mut i: usize = 0;
    while i < events.len()
        invariant
            0 <= i <= events@.len(),
            acc.wf(),
            acc@ == pinch_sum(events@.take(i as int)),
            pinch_sum_fits(events@),
        decreases events@.len() - i,
    {
        proof {
            lemma_pinch_sum_fits_prefix(events@, i + 1);
            assert(events@.take(i + 1).drop_last() =~= events@.take(i as int));
            assert(events@.take(i + 1).last() == events@[i as int]);
        }
        acc = acc.add(events[i]);
        i = i + 1;
    }
    proof {
        assert(events@.take(events@.len() as int) =~= events@);
    }
    acc
}

/// One frame's zoom input, normalized per source.
#[derive(Clone, Copy, Debug)]
pub struct NormalizedZoomInputs {
    /// Summed pinch-gesture delta.
    pub pinch: Frac,
    /// Summed wheel delta, brought into the pinch range.
    pub wheel: Frac,
}

/// The final zoom delta once per-source sensitivities are applied.
pub open spec fn apply_sensitivity_model(
    inputs: NormalizedZoomInputs,
    wheel_sensitivity: FracVal,
    pinch_sensitivity: FracVal,
) -> FracVal {
    fadd(fmul(inputs.pinch@, pinch_sensitivity), fmul(inputs.wheel@, wheel_sensitivity))
}

/// Magnitude bounds under which the sensitivities can be applied
/// exactly in machine arithmetic.
pub open spec fn apply_sensitivity_fits(
    inputs: NormalizedZoomInputs,
    wheel_sensitivity: FracVal,
    pinch_sensitivity: FracVal,
) -> bool {
    &&& fval_ok(fmul(inputs.pinch@, pinch_sensitivity))
    &&& fval_ok(fmul(inputs.wheel@, wheel_sensitivity))
    &&& fval_ok(apply_sensitivity_model(inputs, wheel_sensitivity, pinch_sensitivity))
}

impl NormalizedZoomInputs {
    /// Well-formedness: both totals are well-formed fractions.
    pub open spec fn wf(self) -> bool {
        fval_ok(self.pinch@) && fval_ok(self.wheel@)
    }

    /// Reads one frame's raw wheel and pinch events and normalizes
    /// them: line deltas become pixels, the wheel total is scaled by
    /// [`wheel_normalize_factor`], pinch deltas are summed as they
    /// are.
    pub fn from_events(mouse_wheel_events: &Vec<WheelEvent>, pinch_gesture_events: &Vec<Frac>)
        -> (r: NormalizedZoomInputs)
        requires
            wheel_sum_fits(mouse_wheel_events@),
            pinch_sum_fits(pinch_gesture_events@),
            fval_ok(fmul(wheel_sum(mouse_wheel_events@), wheel_normalize_factor())),
        ensures
            r.wf(),
            r.pinch@ == pinch_sum(pinch_gesture_events@),
            r.wheel@ == fmul(wheel_sum(mouse_wheel_events@), wheel_normalize_factor()),
    {
        let pinch = sum_pinch_events(pinch_gesture_events);
        let wheel = scroll_offset_from_events(mouse_wheel_events).mul(Frac::new(1, 1000));
        NormalizedZoomInputs { pinch, wheel }
    }

    /// Applies the per-source sensitivities and returns the frame's
    /// single zoom delta.
    pub fn apply_sensitivity(&self, wheel_sensitivity: Frac, pinch_sensitivity: Frac)
        -> (r: Frac)
        requires
            self.wf(),
            wheel_sensitivity.wf(),
            pinch_sensitivity.wf(),
            apply_sensitivity_fits(*self, wheel_sensitivity@, pinch_sensitivity@),
        ensures
            r.wf(),
            r@ == apply_sensitivity_model(*self, wheel_sensitivity@, pinch_sensitivity@),
    {
        self.pinch.mul(pinch_sensitivity).add(self.wheel.mul(wheel_sensitivity))
    }

    /// True when the frame carried no zoom input at all (or input
    /// that cancels exactly); the caller then skips the zoom pipeline.
    pub fn is_empty(self) -> (r: bool)
        requires
            self.wf(),
        ensures
            r == (self.pinch@.num == 0 && self.wheel@.num == 0),
    {
        self.pinch.is_zero() && self.wheel.is_zero()
    }
}

} // verus!
