//! Plain geometric data: points, extents, the scale interval and the
//! world-space pan boundary.

use vstd::prelude::*;

use crate::ext::Ext;
use crate::ext::ExtVal;
use crate::ext::ext_le;
use crate::ext::ext_span;
use crate::frac::Frac;
use crate::frac::FracVal;
use crate::frac::fsub;
use crate::frac::fval_ok;

verus! {

/// The mathematical value of a [`Vec2`]: a pair of rationals.
pub struct Vec2Val {
    /// Horizontal component.
    pub x: FracVal,
    /// Vertical component.
    pub y: FracVal,
}

/// A two-dimensional vector of exact rationals: a world-space point,
/// a size, or a direction.
#[derive(Clone, Copy, PartialEq, Eq, Debug)]
pub struct Vec2 {
    /// Horizontal component.
    pub x: Frac,
    /// Vertical component.
    pub y: Frac,
}

impl View for Vec2 {
    type V = Vec2Val;

    open spec fn view(&self) -> Vec2Val {
        Vec2Val { x: self.x@, y: self.y@ }
    }
}

impl Vec2 {
    /// Well-formedness: both components are well-formed fractions.
    pub open spec fn wf(self) -> bool {
        fval_ok(self@.x) && fval_ok(self@.y)
    }

    /// Builds a vector from its components.
    pub fn new(x: Frac, y: Frac) -> (r: Vec2)
        ensures
            r@ == (Vec2Val { x: x@, y: y@ }),
    {
        Vec2 { x, y }
    }

    /// Whether both components are strictly positive.
    pub fn is_pos(self) -> (r: bool)
        requires
            self.wf(),
        ensures
            r == (self@.x.num > 0 && self@.y.num > 0),
    {
        self.x.is_pos() && self.y.is_pos()
    }

    /// Whether both components are exactly zero.
    pub fn is_zero(self) -> (r: bool)
        requires
            self.wf(),
        ensures
            r == (self@.x.num == 0 && self@.y.num == 0),
    {
        self.x.is_zero() && self.y.is_zero()
    }
}

/// The mathematical value of an [`ExtVec2`].
pub struct ExtVec2Val {
    /// Horizontal component.
    pub x: ExtVal,
    /// Vertical component.
    pub y: ExtVal,
}

/// A pair of extended values: a possibly open corner or extent.
#[derive(Clone, Copy, PartialEq, Eq, Debug)]
pub struct ExtVec2 {
    /// Horizontal component.
    pub x: Ext,
    /// Vertical component.
    pub y: Ext,
}

impl View for ExtVec2 {
    type V = ExtVec2Val;

    open spec fn view(&self) -> ExtVec2Val {
        ExtVec2Val { x: self.x@, y: self.y@ }
    }
}

impl ExtVec2 {
    /// Well-formedness: both components are well-formed.
    pub open spec fn wf(self) -> bool {
        self.x.wf() && self.y.wf()
    }

    /// Builds an extended pair from its components.
    pub fn new(x: Ext, y: Ext) -> (r: ExtVec2)
        ensures
            r@ == (ExtVec2Val { x: x@, y: y@ }),
    {
        ExtVec2 { x, y }
    }
}

/// The mathematical value of a [`ScaleRange`].
pub struct ScaleRangeVal {
    /// Smallest allowed scale.
    pub min: ExtVal,
    /// Largest allowed scale.
    pub max: ExtVal,
}

/// A well-formed scale interval: ordered ends, a positive finite
/// minimum — an orthographic camera cannot take a zero or negative
/// scale — and an infinity sentinel only where the upper clamp is
/// switched off.
pub open spec fn scale_range_ok(v: ScaleRangeVal) -> bool {
    &&& crate::ext::ext_ok(v.min)
    &&& crate::ext::ext_ok(v.max)
    &&& v.min matches ExtVal::Fin(m) && crate::frac::fpos(m)
    &&& !(v.max is NegInf)
    &&& ext_le(v.min, v.max)
}

/// The inclusive interval of allowed projection scales; an infinite
/// maximum disables the clamp on that side.
#[derive(Clone, Copy, PartialEq, Eq, Debug)]
pub struct ScaleRange {
    /// Smallest allowed scale.
    pub min: Ext,
    /// Largest allowed scale.
    pub max: Ext,
}

impl View for ScaleRange {
    type V = ScaleRangeVal;

    open spec fn view(&self) -> ScaleRangeVal {
        ScaleRangeVal { min: self.min@, max: self.max@ }
    }
}

impl ScaleRange {
    /// Well-formedness of the interval.
    pub open spec fn wf(self) -> bool {
        scale_range_ok(self@)
    }
}

/// The mathematical value of a [`BoundsRect`].
pub struct BoundsRectVal {
    /// Lower-left corner.
    pub min: ExtVec2Val,
    /// Upper-right corner.
    pub max: ExtVec2Val,
}

/// A well-formed boundary: each axis ordered, with a sentinel infinity
/// only on the side it switches off.
pub open spec fn bounds_ok(v: BoundsRectVal) -> bool {
    &&& crate::ext::ext_ok(v.min.x)
    &&& crate::ext::ext_ok(v.max.x)
    &&& crate::ext::ext_ok(v.min.y)
    &&& crate::ext::ext_ok(v.max.y)
    &&& !(v.min.x is PosInf)
    &&& !(v.max.x is NegInf)
    &&& !(v.min.y is PosInf)
    &&& !(v.max.y is NegInf)
    &&& ext_le(v.min.x, v.max.x)
    &&& ext_le(v.min.y, v.max.y)
}

/// Whether every edge of the boundary is open.
pub open spec fn bounds_unbounded(v: BoundsRectVal) -> bool {
    &&& v.min.x is NegInf
    &&& v.max.x is PosInf
    &&& v.min.y is NegInf
    &&& v.max.y is PosInf
}

/// The per-axis width of a boundary, as an extent value.
pub open spec fn bounds_span_model(b: BoundsRectVal) -> ExtVec2Val {
    ExtVec2Val {
        x: ext_span(b.min.x, b.max.x),
        y: ext_span(b.min.y, b.max.y),
    }
}

/// Magnitude bounds under which the boundary's width can be computed
/// exactly in machine arithmetic.
pub open spec fn bounds_span_fits(b: BoundsRectVal) -> bool {
    &&& b.min.x matches ExtVal::Fin(a) ==> (b.max.x matches ExtVal::Fin(c)
        ==> fval_ok(fsub(c, a)))
    &&& b.min.y matches ExtVal::Fin(a) ==> (b.max.y matches ExtVal::Fin(c)
        ==> fval_ok(fsub(c, a)))
}

/// An axis-aligned world-space rectangle that the visible viewport
/// must stay inside; any edge may be open.
#[derive(Clone, Copy, PartialEq, Eq, Debug)]
pub struct BoundsRect {
    /// Lower-left corner.
    pub min: ExtVec2,
    /// Upper-right corner.
    pub max: ExtVec2,
}

impl View for BoundsRect {
    type V = BoundsRectVal;

    open spec fn view(&self) -> BoundsRectVal {
        BoundsRectVal { min: self.min@, max: self.max@ }
    }
}

impl BoundsRect {
    /// Well-formedness of the boundary.
    pub open spec fn wf(self) -> bool {
        bounds_ok(self@)
    }

    /// A boundary with every edge open.
    pub fn unbounded() -> (r: BoundsRect)
        ensures
            r.wf(),
            bounds_unbounded(r@),
    {
        BoundsRect {
            min: ExtVec2 { x: Ext::NegInf, y: Ext::NegInf },
            max: ExtVec2 { x: Ext::PosInf, y: Ext::PosInf },
        }
    }

    /// The width and height of the boundary; infinite on an axis with
    /// an open edge.
    pub fn size(&self) -> (r: ExtVec2)
        requires
            self.wf(),
            self@.min.x matches ExtVal::Fin(a) ==> (self@.max.x matches ExtVal::Fin(b)
                ==> fval_ok(fsub(b, a))),
            self@.min.y matches ExtVal::Fin(a) ==> (self@.max.y matches ExtVal::Fin(b)
                ==> fval_ok(fsub(b, a))),
        ensures
            r.wf(),
            r@.x == ext_span(self@.min.x, self@.max.x),
            r@.y == ext_span(self@.min.y, self@.max.y),
    {
        ExtVec2 {
            x: crate::ext::span_between(self.min.x, self.max.x),
            y: crate::ext::span_between(self.min.y, self.max.y),
        }
    }
}

} // verus!
