//! The zoom-scale solver.
//!
//! A frame's zoom input proposes the multiplicative change
//! `old_scale * (1 - zoom_delta)`.  The solver clamps that candidate
//! into the configured scale interval and then, when the pan boundary
//! is finite on an axis, caps it at the largest scale whose projected
//! visible area still fits inside the boundary, so that zooming out
//! can never reveal world space beyond a finite boundary.

use vstd::prelude::*;

use crate::ext::Ext;
use crate::ext::ExtVal;
use crate::ext::ext_le;
use crate::ext::ext_valid;
use crate::ext::fclamp_ext;
use crate::ext::fmin_ext;
use crate::frac::Frac;
use crate::frac::FracVal;
use crate::frac::fdiv;
use crate::frac::fle;
use crate::frac::flt;
use crate::frac::fmul;
use crate::frac::fone;
use crate::frac::fpos;
use crate::frac::fsub;
use crate::frac::fval_ok;
use crate::frac::fvalid;
use crate::frac::lemma_fdiv_pos;
use crate::frac::lemma_fle_pos;
use crate::frac::lemma_fle_trans;
use crate::frac::lemma_le_div_mul;
use crate::geom::ExtVec2;
use crate::geom::ExtVec2Val;
use crate::geom::ScaleRange;
use crate::geom::ScaleRangeVal;
use crate::geom::Vec2;
use crate::geom::Vec2Val;

verus! {

/// The largest safe scale on one axis: the boundary's width divided
/// by the visible world-space width at scale one; open when the
/// boundary is.
pub open spec fn max_scale_axis_model(span: ExtVal, base: FracVal) -> ExtVal {
    match span {
        ExtVal::Fin(s) => ExtVal::Fin(fdiv(s, base)),
        _ => span,
    }
}

/// Magnitude bounds under which the per-axis safe scales can be
/// computed exactly in machine arithmetic.
pub open spec fn max_scale_fits(span: ExtVec2Val, base: Vec2Val) -> bool {
    &&& span.x matches ExtVal::Fin(s) ==> fval_ok(fdiv(s, base.x))
    &&& span.y matches ExtVal::Fin(s) ==> fval_ok(fdiv(s, base.y))
}

/// The largest safe zoom-out scale for each axis, given the width and
/// height of the pan boundary and the visible world-space area size
/// at scale one.
pub fn max_scale_within_bounds(bounded_area_size: ExtVec2, base_world_size: Vec2)
    -> (r: ExtVec2)
    requires
        bounded_area_size.wf(),
        base_world_size.wf(),
        fpos(base_world_size@.x),
        fpos(base_world_size@.y),
        max_scale_fits(bounded_area_size@, base_world_size@),
    ensures
        r.wf(),
        r@.x == max_scale_axis_model(bounded_area_size@.x, base_world_size@.x),
        r@.y == max_scale_axis_model(bounded_area_size@.y, base_world_size@.y),
{
    let x = match bounded_area_size.x {
        Ext::Fin(s) => Ext::Fin(s.div(base_world_size.x)),
        other => other,
    };
    let y = match bounded_area_size.y {
        Ext::Fin(s) => Ext::Fin(s.div(base_world_size.y)),
        other => other,
    };
    ExtVec2 { x, y }
}

/// The constrained scale: the candidate clamped into the scale
/// interval, then capped by the finite per-axis safe scales; with a
/// fully open boundary the capping stage is skipped.
pub open spec fn constrain_scale_model(
    cand: FracVal,
    range: ScaleRangeVal,
    span: ExtVec2Val,
    base: Vec2Val,
) -> FracVal {
    let clamped = fclamp_ext(cand, range.min, range.max);
    if span.x is Fin || span.y is Fin {
        fmin_ext(
            fmin_ext(clamped, max_scale_axis_model(span.x, base.x)),
            max_scale_axis_model(span.y, base.y),
        )
    } else {
        clamped
    }
}

/// Keeps a candidate projection scale inside the scale interval and
/// inside the boundary-derived ceiling.
pub fn constrain_proj_scale(
    scale: Frac,
    bounded_area_size: ExtVec2,
    scale_range: &ScaleRange,
    base_world_size: Vec2,
) -> (r: Frac)
    requires
        scale.wf(),
        bounded_area_size.wf(),
        scale_range.wf(),
        base_world_size.wf(),
        fpos(base_world_size@.x),
        fpos(base_world_size@.y),
        max_scale_fits(bounded_area_size@, base_world_size@),
    ensures
        r.wf(),
        r@ == constrain_scale_model(scale@, scale_range@, bounded_area_size@, base_world_size@),
        bounded_area_size@.x matches ExtVal::Fin(s) ==> fle(fmul(r@, base_world_size@.x), s),
        bounded_area_size@.y matches ExtVal::Fin(s) ==> fle(fmul(r@, base_world_size@.y), s),
        (bounded_area_size@.x matches ExtVal::Fin(s)
            ==> ext_le(scale_range@.min, max_scale_axis_model(bounded_area_size@.x,
                base_world_size@.x)))
            && (bounded_area_size@.y matches ExtVal::Fin(s)
            ==> ext_le(scale_range@.min, max_scale_axis_model(bounded_area_size@.y,
                base_world_size@.y)))
            ==> ext_le(scale_range@.min, ExtVal::Fin(r@))
                && ext_le(ExtVal::Fin(r@), scale_range@.max),
        !(bounded_area_size@.x is Fin) && !(bounded_area_size@.y is Fin)
            ==> r@ == fclamp_ext(scale@, scale_range@.min, scale_range@.max),
        ((bounded_area_size@.x matches ExtVal::Fin(s) ==> fpos(s))
            && (bounded_area_size@.y matches ExtVal::Fin(s) ==> fpos(s)))
            ==> fpos(r@),
{
    proof {
        lemma_scale_solver_keeps_bounds(scale@, scale_range@, bounded_area_size@,
            base_world_size@);
        if (bounded_area_size@.x matches ExtVal::Fin(s) ==> fpos(s))
            && (bounded_area_size@.y matches ExtVal::Fin(s) ==> fpos(s)) {
            lemma_scale_solver_positive(scale@, scale_range@, bounded_area_size@,
                base_world_size@);
        }
        let ceiling_above_min_x = bounded_area_size@.x matches ExtVal::Fin(s)
            ==> ext_le(scale_range@.min, max_scale_axis_model(bounded_area_size@.x,
                base_world_size@.x));
        let ceiling_above_min_y = bounded_area_size@.y matches ExtVal::Fin(s)
            ==> ext_le(scale_range@.min, max_scale_axis_model(bounded_area_size@.y,
                base_world_size@.y));
        if ceiling_above_min_x && ceiling_above_min_y {
            lemma_scale_solver_in_range(scale@, scale_range@, bounded_area_size@,
                base_world_size@);
        }
    }
    let clamped = crate::ext::clamp_frac_ext(scale, scale_range.min, scale_range.max);
    if bounded_area_size.x.is_fin() || bounded_area_size.y.is_fin() {
        let max_safe = max_scale_within_bounds(bounded_area_size, base_world_size);
        crate::ext::min_frac_ext(crate::ext::min_frac_ext(clamped, max_safe.x), max_safe.y)
    } else {
        clamped
    }
}

/// Magnitude bounds under which the zoom candidate can be computed
/// exactly in machine arithmetic.
pub open spec fn solve_scale_fits(old_scale: FracVal, zoom_delta: FracVal) -> bool {
    &&& fval_ok(fsub(fone(), zoom_delta))
    &&& fval_ok(fmul(old_scale, fsub(fone(), zoom_delta)))
}

/// The scale the solver settles on for one frame's zoom input.
pub open spec fn solve_scale_model(
    old_scale: FracVal,
    zoom_delta: FracVal,
    range: ScaleRangeVal,
    span: ExtVec2Val,
    base: Vec2Val,
) -> FracVal {
    constrain_scale_model(fmul(old_scale, fsub(fone(), zoom_delta)), range, span, base)
}

/// Applies one frame's zoom delta to the current scale: the candidate
/// `old_scale * (1 - zoom_delta)` (a positive delta zooms in), run
/// through [`constrain_proj_scale`].
pub fn solve_scale(
    old_scale: Frac,
    zoom_delta: Frac,
    scale_range: &ScaleRange,
    bounded_area_size: ExtVec2,
    base_world_size: Vec2,
) -> (r: Frac)
    requires
        old_scale.wf(),
        zoom_delta.wf(),
        scale_range.wf(),
        bounded_area_size.wf(),
        base_world_size.wf(),
        fpos(base_world_size@.x),
        fpos(base_world_size@.y),
        solve_scale_fits(old_scale@, zoom_delta@),
        max_scale_fits(bounded_area_size@, base_world_size@),
    ensures
        r.wf(),
        r@ == solve_scale_model(
            old_scale@,
            zoom_delta@,
            scale_range@,
            bounded_area_size@,
            base_world_size@,
        ),
        bounded_area_size@.x matches ExtVal::Fin(s) ==> fle(fmul(r@, base_world_size@.x), s),
        bounded_area_size@.y matches ExtVal::Fin(s) ==> fle(fmul(r@, base_world_size@.y), s),
        (bounded_area_size@.x matches ExtVal::Fin(s)
            ==> ext_le(scale_range@.min, max_scale_axis_model(bounded_area_size@.x,
                base_world_size@.x)))
            && (bounded_area_size@.y matches ExtVal::Fin(s)
            ==> ext_le(scale_range@.min, max_scale_axis_model(bounded_area_size@.y,
                base_world_size@.y)))
            ==> ext_le(scale_range@.min, ExtVal::Fin(r@))
                && ext_le(ExtVal::Fin(r@), scale_range@.max),
{
    let candidate = old_scale.mul(Frac::one().sub(zoom_delta));
    constrain_proj_scale(candidate, bounded_area_size, scale_range, base_world_size)
}

/// Law: on an axis with a finite boundary width, the constrained
/// scale times the base visible width never exceeds that boundary
/// width — the solver cannot zoom out past a finite boundary.
pub proof fn lemma_scale_solver_keeps_bounds(
    cand: FracVal,
    range: ScaleRangeVal,
    span: ExtVec2Val,
    base: Vec2Val,
)
    requires
        fvalid(cand),
        ext_valid(range.min),
        ext_valid(range.max),
        ext_valid(span.x),
        ext_valid(span.y),
        fvalid(base.x),
        fvalid(base.y),
        fpos(base.x),
        fpos(base.y),
    ensures
        span.x matches ExtVal::Fin(s)
            ==> fle(fmul(constrain_scale_model(cand, range, span, base), base.x), s),
        span.y matches ExtVal::Fin(s)
            ==> fle(fmul(constrain_scale_model(cand, range, span, base), base.y), s),
{
    let clamped = fclamp_ext(cand, range.min, range.max);
    let r = constrain_scale_model(cand, range, span, base);
    if let ExtVal::Fin(s) = span.x {
        crate::frac::lemma_fdiv_valid(s, base.x);
    }
    if let ExtVal::Fin(s) = span.y {
        crate::frac::lemma_fdiv_valid(s, base.y);
    }
    assert(fvalid(clamped));
    assert(fvalid(r));
    if let ExtVal::Fin(s) = span.x {
        let mx = fdiv(s, base.x);
        let inner = fmin_ext(clamped, ExtVal::Fin(mx));
        assert(fvalid(inner));
        assert(fle(inner, mx));
        assert(fle(r, inner));
        lemma_fle_trans(r, inner, mx);
        lemma_le_div_mul(r, s, base.x);
    }
    if let ExtVal::Fin(s) = span.y {
        let my = fdiv(s, base.y);
        assert(fle(r, my));
        lemma_le_div_mul(r, s, base.y);
    }
}

/// Law: the constrained scale stays inside the scale interval.  On
/// the lower side this holds when each finite boundary-derived
/// ceiling is itself at least the interval's minimum; a ceiling below
/// the minimum wins, by design, so that a finite boundary is never
/// exceeded.
pub proof fn lemma_scale_solver_in_range(
    cand: FracVal,
    range: ScaleRangeVal,
    span: ExtVec2Val,
    base: Vec2Val,
)
    requires
        fvalid(cand),
        ext_valid(range.min),
        ext_valid(range.max),
        ext_valid(span.x),
        ext_valid(span.y),
        fvalid(base.x),
        fvalid(base.y),
        fpos(base.x),
        fpos(base.y),
        !(range.min is PosInf),
        !(range.max is NegInf),
        ext_le(range.min, range.max),
        span.x matches ExtVal::Fin(s) ==> ext_le(range.min, max_scale_axis_model(span.x, base.x)),
        span.y matches ExtVal::Fin(s) ==> ext_le(range.min, max_scale_axis_model(span.y, base.y)),
    ensures
        ext_le(range.min, ExtVal::Fin(constrain_scale_model(cand, range, span, base))),
        ext_le(ExtVal::Fin(constrain_scale_model(cand, range, span, base)), range.max),
{
    let clamped = fclamp_ext(cand, range.min, range.max);
    let r = constrain_scale_model(cand, range, span, base);
    if let ExtVal::Fin(s) = span.x {
        crate::frac::lemma_fdiv_valid(s, base.x);
    }
    if let ExtVal::Fin(s) = span.y {
        crate::frac::lemma_fdiv_valid(s, base.y);
    }
    let inner = fmin_ext(clamped, max_scale_axis_model(span.x, base.x));
    assert(fvalid(clamped));
    assert(fvalid(inner));
    assert(fvalid(r));
    if let ExtVal::Fin(m) = range.min {
        let raised = if flt(cand, m) {
            m
        } else {
            cand
        };
        assert(fle(m, raised));
        assert(fle(m, clamped));
        assert(fle(m, inner));
        assert(fle(m, r));
    }
    if let ExtVal::Fin(h) = range.max {
        assert(fle(clamped, h));
        assert(fle(inner, clamped));
        assert(fle(r, inner));
        lemma_fle_trans(r, inner, clamped);
        lemma_fle_trans(r, clamped, h);
    }
}

/// Law: the full solver — candidate `old_scale * (1 - zoom_delta)`
/// included — never settles on a scale whose visible area exceeds a
/// finite boundary width.
pub proof fn lemma_solve_scale_keeps_bounds(
    old_scale: FracVal,
    zoom_delta: FracVal,
    range: ScaleRangeVal,
    span: ExtVec2Val,
    base: Vec2Val,
)
    requires
        fvalid(old_scale),
        fvalid(zoom_delta),
        ext_valid(range.min),
        ext_valid(range.max),
        ext_valid(span.x),
        ext_valid(span.y),
        fvalid(base.x),
        fvalid(base.y),
        fpos(base.x),
        fpos(base.y),
    ensures
        span.x matches ExtVal::Fin(s)
            ==> fle(fmul(solve_scale_model(old_scale, zoom_delta, range, span, base), base.x), s),
        span.y matches ExtVal::Fin(s)
            ==> fle(fmul(solve_scale_model(old_scale, zoom_delta, range, span, base), base.y), s),
{
    let cand = fmul(old_scale, fsub(fone(), zoom_delta));
    assert(fvalid(cand)) by (nonlinear_arith)
        requires
            old_scale.den > 0,
            zoom_delta.den > 0,
            cand.den == old_scale.den * (1 * zoom_delta.den),
    ;
    lemma_scale_solver_keeps_bounds(cand, range, span, base);
}

/// Law: the full solver's output lies in the scale interval, under
/// the same proviso as [`lemma_scale_solver_in_range`]: each finite
/// boundary-derived ceiling must itself be at least the interval's
/// minimum.
pub proof fn lemma_solve_scale_in_range(
    old_scale: FracVal,
    zoom_delta: FracVal,
    range: ScaleRangeVal,
    span: ExtVec2Val,
    base: Vec2Val,
)
    requires
        fvalid(old_scale),
        fvalid(zoom_delta),
        ext_valid(range.min),
        ext_valid(range.max),
        ext_valid(span.x),
        ext_valid(span.y),
        fvalid(base.x),
        fvalid(base.y),
        fpos(base.x),
        fpos(base.y),
        !(range.min is PosInf),
        !(range.max is NegInf),
        ext_le(range.min, range.max),
        span.x matches ExtVal::Fin(s) ==> ext_le(range.min, max_scale_axis_model(span.x, base.x)),
        span.y matches ExtVal::Fin(s) ==> ext_le(range.min, max_scale_axis_model(span.y, base.y)),
    ensures
        ext_le(range.min, ExtVal::Fin(solve_scale_model(old_scale, zoom_delta, range, span, base))),
        ext_le(ExtVal::Fin(solve_scale_model(old_scale, zoom_delta, range, span, base)), range.max),
{
    let cand = fmul(old_scale, fsub(fone(), zoom_delta));
    assert(fvalid(cand)) by (nonlinear_arith)
        requires
            old_scale.den > 0,
            zoom_delta.den > 0,
            cand.den == old_scale.den * (1 * zoom_delta.den),
    ;
    lemma_scale_solver_in_range(cand, range, span, base);
}

/// Law: with a fully open boundary the ceiling stage is skipped
/// entirely — the solver returns exactly the range-clamped candidate.
pub proof fn lemma_scale_solver_unbounded_skips_ceiling(
    cand: FracVal,
    range: ScaleRangeVal,
    span: ExtVec2Val,
    base: Vec2Val,
)
    requires
        !(span.x is Fin),
        !(span.y is Fin),
    ensures
        constrain_scale_model(cand, range, span, base) == fclamp_ext(cand, range.min, range.max),
{
}

/// Law: with a positive minimum scale, positive finite boundary
/// widths and a positive base area, the solver's output is positive,
/// whatever candidate the zoom input proposed.
pub proof fn lemma_scale_solver_positive(
    cand: FracVal,
    range: ScaleRangeVal,
    span: ExtVec2Val,
    base: Vec2Val,
)
    requires
        fvalid(cand),
        ext_valid(range.min),
        ext_valid(range.max),
        ext_valid(span.x),
        ext_valid(span.y),
        fvalid(base.x),
        fvalid(base.y),
        fpos(base.x),
        fpos(base.y),
        ext_le(range.min, range.max),
        range.min matches ExtVal::Fin(m) && fpos(m),
        span.x matches ExtVal::Fin(s) ==> fpos(s),
        span.y matches ExtVal::Fin(s) ==> fpos(s),
    ensures
        fpos(constrain_scale_model(cand, range, span, base)),
        fvalid(constrain_scale_model(cand, range, span, base)),
{
    let m = range.min->Fin_0;
    let clamped = fclamp_ext(cand, range.min, range.max);
    assert(fle(m, clamped));
    lemma_fle_pos(m, clamped);
    if let ExtVal::Fin(s) = span.x {
        lemma_fdiv_pos(s, base.x);
    }
    if let ExtVal::Fin(s) = span.y {
        lemma_fdiv_pos(s, base.y);
    }
}

} // verus!
