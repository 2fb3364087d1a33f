//! Exact rational numbers over `i128` components.
//!
//! A `Rat` holds a numerator and a positive denominator and is never
//! reduced: every operation states its result exactly, component by
//! component, so callers know the precise shape of what they get back.
//! The price of exactness is that components grow with each operation;
//! the `*_fits` predicates say when an operation stays inside `i128`.

use vstd::prelude::*;
use vstd::arithmetic::div_mod::{
    lemma_fundamental_div_mod, lemma_fundamental_div_mod_converse, lemma_mod_bound,
};
use vstd::arithmetic::mul::lemma_mul_strictly_positive;

verus! {

/// Magnitude cap for the numerator and denominator products that an
/// operation forms; it leaves a factor-of-two margin below `i128::MAX`
/// so that a sum of two in-cap products still fits.
pub const FIT_LIMIT: i128 = 0x2000_0000_0000_0000_0000_0000_0000_0000;

/// The mathematical value of a `Rat`: numerator and denominator.
pub type RatV = (int, int);

/// A rational value is well formed when its denominator is positive.
pub open spec fn rat_wf(a: RatV) -> bool {
    a.1 > 0
}

pub open spec fn int_abs(x: int) -> int {
    if x < 0 {
        -x
    } else {
        x
    }
}

/// `x` is small enough to stand as a component of an operation result.
pub open spec fn fits(x: int) -> bool {
    -FIT_LIMIT <= x <= FIT_LIMIT
}

/// Two rationals denote the same number (cross multiplication).
pub open spec fn rat_eq(a: RatV, b: RatV) -> bool {
    a.0 * b.1 == b.0 * a.1
}

pub open spec fn rat_add(a: RatV, b: RatV) -> RatV {
    (a.0 * b.1 + b.0 * a.1, a.1 * b.1)
}

pub open spec fn rat_sub(a: RatV, b: RatV) -> RatV {
    (a.0 * b.1 - b.0 * a.1, a.1 * b.1)
}

pub open spec fn rat_mul(a: RatV, b: RatV) -> RatV {
    (a.0 * b.0, a.1 * b.1)
}

/// Quotient of two rationals, with the sign moved into the numerator so
/// that the denominator stays positive.
pub open spec fn rat_div_val(a: RatV, b: RatV) -> RatV {
    if b.0 > 0 {
        (a.0 * b.1, a.1 * b.0)
    } else {
        (-(a.0 * b.1), a.1 * -b.0)
    }
}

/// The floor of a rational with positive denominator; `int` division is
/// Euclidean, which coincides with the floor here.
pub open spec fn rat_floor(a: RatV) -> int {
    a.0 / a.1
}

/// The components formed by `rat_add` (and `rat_sub`) stay in cap.
pub open spec fn add_fits(a: RatV, b: RatV) -> bool {
    fits(a.0 * b.1) && fits(b.0 * a.1) && fits(a.1 * b.1)
}

/// The components formed by `rat_mul` stay in cap.
pub open spec fn mul_fits(a: RatV, b: RatV) -> bool {
    fits(a.0 * b.0) && fits(a.1 * b.1)
}

/// The components formed by `rat_div_val` stay in cap.
pub open spec fn div_fits(a: RatV, b: RatV) -> bool {
    fits(a.0 * b.1) && fits(a.1 * b.0) && fits(b.0)
}

/// Both components are bounded by `m` in magnitude, denominator positive.
pub open spec fn rat_bounded(a: RatV, m: int) -> bool {
    -m <= a.0 <= m && 0 < a.1 <= m
}

/// An exact, unreduced rational number with positive denominator.
#[derive(Clone, Copy, Debug, PartialEq, Eq, Structural)]
pub struct Rat {
    pub num: i128,
    pub den: i128,
}

impl View for Rat {
    type V = RatV;

    open spec fn view(&self) -> RatV {
        (self.num as int, self.den as int)
    }
}

impl Rat {
    pub fn new(num: i128, den: i128) -> (r: Rat)
        requires
            den > 0,
        ensures
            r@ == (num as int, den as int),
            rat_wf(r@),
    {
        Rat { num, den }
    }

    pub fn from_int(num: i128) -> (r: Rat)
        ensures
            r@ == (num as int, 1int),
            rat_wf(r@),
    {
        Rat { num, den: 1 }
    }

    pub fn add(self, other: Rat) -> (r: Rat)
        requires
            rat_wf(self@),
            rat_wf(other@),
            add_fits(self@, other@),
        ensures
            r@ == rat_add(self@, other@),
            rat_wf(r@),
    {
        proof {
            lemma_mul_strictly_positive(self.den as int, other.den as int);
        }
        Rat { num: self.num * other.den + other.num * self.den, den: self.den * other.den }
    }

    pub fn sub(self, other: Rat) -> (r: Rat)
        requires
            rat_wf(self@),
            rat_wf(other@),
            add_fits(self@, other@),
        ensures
            r@ == rat_sub(self@, other@),
            rat_wf(r@),
    {
        proof {
            lemma_mul_strictly_positive(self.den as int, other.den as int);
        }
        Rat { num: self.num * other.den - other.num * self.den, den: self.den * other.den }
    }

    pub fn mul(self, other: Rat) -> (r: Rat)
        requires
            rat_wf(self@),
            rat_wf(other@),
            mul_fits(self@, other@),
        ensures
            r@ == rat_mul(self@, other@),
            rat_wf(r@),
    {
        proof {
            lemma_mul_strictly_positive(self.den as int, other.den as int);
        }
        Rat { num: self.num * other.num, den: self.den * other.den }
    }

    pub fn div_by(self, other: Rat) -> (r: Rat)
        requires
            rat_wf(self@),
            rat_wf(other@),
            other@.0 != 0,
            div_fits(self@, other@),
        ensures
            r@ == rat_div_val(self@, other@),
            rat_wf(r@),
    {
        if other.num > 0 {
            proof {
                lemma_mul_strictly_positive(self.den as int, other.num as int);
            }
            Rat { num: self.num * other.den, den: self.den * other.num }
        } else {
            proof {
                lemma_mul_strictly_positive(self.den as int, -other.num as int);
                assert(self@.1 * -other@.0 == -(self@.1 * other@.0)) by (nonlinear_arith);
            }
            Rat { num: -(self.num * other.den), den: self.den * -other.num }
        }
    }

    pub fn abs(self) -> (r: Rat)
        requires
            rat_wf(self@),
            fits(self@.0),
        ensures
            r@ == (int_abs(self@.0), self@.1),
            rat_wf(r@),
    {
        if self.num < 0 {
            Rat { num: -self.num, den: self.den }
        } else {
            self
        }
    }

    /// The floor of the rational, computed with unsigned division on the
    /// magnitude and corrected for negative numerators.
    pub fn floor(self) -> (q: i128)
        requires
            rat_wf(self@),
            fits(self@.0),
        ensures
            q as int == rat_floor(self@),
            fits(q as int),
    {
        proof {
            lemma_floor_in_bound(self@, FIT_LIMIT as int);
        }
        let n: i128 = self.num;
        let d: i128 = self.den;
        if n >= 0 {
            let un: u128 = n as u128;
            let ud: u128 = d as u128;
            let uq: u128 = un / ud;
            proof {
                lemma_fundamental_div_mod(un as int, ud as int);
                lemma_mod_bound(un as int, ud as int);
                assert(uq <= ud * uq) by (nonlinear_arith)
                    requires
                        1 <= ud,
                        0 <= uq,
                ;
            }
            uq as i128
        } else {
            let um: u128 = (-n) as u128;
            let ud: u128 = d as u128;
            let uq: u128 = um / ud;
            let ur: u128 = um % ud;
            proof {
                let ni: int = n as int;
                let di: int = d as int;
                let mi: int = um as int;
                let qi: int = uq as int;
                let ri: int = ur as int;
                lemma_fundamental_div_mod(mi, di);
                lemma_mod_bound(mi, di);
                assert(uq <= ud * uq) by (nonlinear_arith)
                    requires
                        1 <= ud,
                        0 <= uq,
                ;
                if ur == 0 {
                    assert(ni == (-qi) * di + 0) by (nonlinear_arith)
                        requires
                            mi == di * qi + ri,
                            ri == 0,
                            ni == -mi,
                    ;
                    lemma_fundamental_div_mod_converse(ni, di, -qi, 0);
                } else {
                    assert(ni == (-qi - 1) * di + (di - ri)) by (nonlinear_arith)
                        requires
                            mi == di * qi + ri,
                            ni == -mi,
                    ;
                    lemma_fundamental_div_mod_converse(ni, di, -qi - 1, di - ri);
                }
            }
            if ur == 0 {
                -(uq as i128)
            } else {
                -(uq as i128) - 1
            }
        }
    }
}

/// Product of values bounded in magnitude is bounded by the product of
/// the bounds.
pub proof fn lemma_mul_in_bound(x: int, y: int, bx: int, by: int)
    by (nonlinear_arith)
    requires
        -bx <= x <= bx,
        -by <= y <= by,
        0 <= bx,
        0 <= by,
    ensures
        -(bx * by) <= x * y <= bx * by,
{
}

/// Product of positive bounded values is positive and bounded.
pub proof fn lemma_mul_pos_bound(x: int, y: int, bx: int, by: int)
    by (nonlinear_arith)
    requires
        0 < x <= bx,
        0 < y <= by,
    ensures
        0 < x * y <= bx * by,
{
}

/// The floor of a rational is no larger in magnitude than its numerator.
pub proof fn lemma_floor_in_bound(a: RatV, b: int)
    requires
        rat_wf(a),
        0 <= b,
        -b <= a.0 <= b,
    ensures
        -b <= rat_floor(a) <= b,
{
    let q = a.0 / a.1;
    let r = a.0 % a.1;
    lemma_fundamental_div_mod(a.0, a.1);
    lemma_mod_bound(a.0, a.1);
    if q >= 0 {
        assert(q <= a.1 * q) by (nonlinear_arith)
            requires
                a.1 >= 1,
                q >= 0,
        ;
    } else {
        assert(a.1 * q + a.1 - 1 <= q) by (nonlinear_arith)
            requires
                a.1 >= 1,
                q <= -1,
        ;
    }
}

} // verus!
