//! Rational values extended with the two infinities.
//!
//! Pan boundaries and scale limits may be open on either side; an open
//! side is held as an infinity sentinel, so the clamp paths need no
//! optional values.

use vstd::prelude::*;

use crate::frac::Frac;
use crate::frac::FracVal;
use crate::frac::fadd;
use crate::frac::fle;
use crate::frac::flt;
use crate::frac::fmin;
use crate::frac::fsub;
use crate::frac::fval_ok;

verus! {

/// The mathematical value of an [`Ext`]: a rational or an infinity.
pub enum ExtVal {
    /// Negative infinity: a lower limit that is switched off.
    NegInf,
    /// A finite rational value.
    Fin(FracVal),
    /// Positive infinity: an upper limit that is switched off.
    PosInf,
}

/// A well-formed extended value: finite parts are well-formed.
pub open spec fn ext_ok(v: ExtVal) -> bool {
    match v {
        ExtVal::Fin(f) => fval_ok(f),
        _ => true,
    }
}

/// A mathematically meaningful extended value: a finite part has a
/// positive denominator.  Weaker than [`ext_ok`].
pub open spec fn ext_valid(v: ExtVal) -> bool {
    match v {
        ExtVal::Fin(f) => crate::frac::fvalid(f),
        _ => true,
    }
}

/// Order on extended values; the infinities bound everything.
pub open spec fn ext_le(a: ExtVal, b: ExtVal) -> bool {
    match (a, b) {
        (ExtVal::NegInf, _) => true,
        (_, ExtVal::PosInf) => true,
        (ExtVal::Fin(x), ExtVal::Fin(y)) => fle(x, y),
        _ => false,
    }
}

/// Clamps the finite value `v` into `[lo, hi]`: first the lower limit
/// is applied, then the upper; an infinite limit never binds.
pub open spec fn fclamp_ext(v: FracVal, lo: ExtVal, hi: ExtVal) -> FracVal {
    let raised = match lo {
        ExtVal::Fin(l) => if flt(v, l) {
            l
        } else {
            v
        },
        _ => v,
    };
    match hi {
        ExtVal::Fin(h) => if flt(h, raised) {
            h
        } else {
            raised
        },
        _ => raised,
    }
}

/// The smaller of a finite value and an extended upper limit; the
/// limit only ever lowers the value, so a negative infinity (which the
/// callers' well-formed inputs never produce) is ignored.
pub open spec fn fmin_ext(s: FracVal, m: ExtVal) -> FracVal {
    match m {
        ExtVal::Fin(x) => fmin(s, x),
        _ => s,
    }
}

/// `a + b` where only `a` may be infinite.
pub open spec fn ext_add_fin(a: ExtVal, b: FracVal) -> ExtVal {
    match a {
        ExtVal::Fin(x) => ExtVal::Fin(fadd(x, b)),
        _ => a,
    }
}

/// `a - b` where only `a` may be infinite.
pub open spec fn ext_sub_fin(a: ExtVal, b: FracVal) -> ExtVal {
    match a {
        ExtVal::Fin(x) => ExtVal::Fin(fsub(x, b)),
        _ => a,
    }
}

/// The width `hi - lo` of an interval; infinite as soon as either end
/// is open.
pub open spec fn ext_span(lo: ExtVal, hi: ExtVal) -> ExtVal {
    match (lo, hi) {
        (ExtVal::Fin(a), ExtVal::Fin(b)) => ExtVal::Fin(fsub(b, a)),
        _ => ExtVal::PosInf,
    }
}

/// A rational number or one of the two infinities.
#[derive(Clone, Copy, PartialEq, Eq, Debug)]
pub enum Ext {
    /// Negative infinity: a lower limit that is switched off.
    NegInf,
    /// A finite rational value.
    Fin(Frac),
    /// Positive infinity: an upper limit that is switched off.
    PosInf,
}

impl View for Ext {
    type V = ExtVal;

    open spec fn view(&self) -> ExtVal {
        match *self {
            Ext::NegInf => ExtVal::NegInf,
            Ext::Fin(f) => ExtVal::Fin(f@),
            Ext::PosInf => ExtVal::PosInf,
        }
    }
}

impl Ext {
    /// Well-formedness: a finite part is a well-formed fraction.
    pub open spec fn wf(self) -> bool {
        ext_ok(self@)
    }

    /// Whether the value is finite.
    pub fn is_fin(self) -> (r: bool)
        ensures
            r == (self@ is Fin),
    {
        match self {
            Ext::Fin(_) => true,
            _ => false,
        }
    }

    /// `self + b`, keeping an infinity.
    pub fn add_fin(self, b: Frac) -> (r: Ext)
        requires
            self.wf(),
            b.wf(),
            self@ matches ExtVal::Fin(x) ==> fval_ok(fadd(x, b@)),
        ensures
            r.wf(),
            r@ == ext_add_fin(self@, b@),
    {
        match self {
            Ext::Fin(x) => Ext::Fin(x.add(b)),
            _ => self,
        }
    }

    /// `self - b`, keeping an infinity.
    pub fn sub_fin(self, b: Frac) -> (r: Ext)
        requires
            self.wf(),
            b.wf(),
            self@ matches ExtVal::Fin(x) ==> fval_ok(fsub(x, b@)),
        ensures
            r.wf(),
            r@ == ext_sub_fin(self@, b@),
    {
        match self {
            Ext::Fin(x) => Ext::Fin(x.sub(b)),
            _ => self,
        }
    }
}

/// Clamps the finite value `v` into `[lo, hi]`.
pub fn clamp_frac_ext(v: Frac, lo: Ext, hi: Ext) -> (r: Frac)
    requires
        v.wf(),
        lo.wf(),
        hi.wf(),
    ensures
        r.wf(),
        r@ == fclamp_ext(v@, lo@, hi@),
{
    let raised = match lo {
        Ext::Fin(l) => if v.lt(l) {
            l
        } else {
            v
        },
        _ => v,
    };
    match hi {
        Ext::Fin(h) => if h.lt(raised) {
            h
        } else {
            raised
        },
        _ => raised,
    }
}

/// The smaller of a finite value and an extended upper limit.
pub fn min_frac_ext(s: Frac, m: Ext) -> (r: Frac)
    requires
        s.wf(),
        m.wf(),
    ensures
        r.wf(),
        r@ == fmin_ext(s@, m@),
{
    match m {
        Ext::Fin(x) => s.min(x),
        _ => s,
    }
}

/// The width `hi - lo` of an interval.
pub fn span_between(lo: Ext, hi: Ext) -> (r: Ext)
    requires
        lo.wf(),
        hi.wf(),
        lo@ matches ExtVal::Fin(a) ==> (hi@ matches ExtVal::Fin(b) ==> fval_ok(fsub(b, a))),
    ensures
        r.wf(),
        r@ == ext_span(lo@, hi@),
{
    match (lo, hi) {
        (Ext::Fin(a), Ext::Fin(b)) => Ext::Fin(b.sub(a)),
        _ => Ext::PosInf,
    }
}

} // verus!
