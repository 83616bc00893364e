//! An exact rational scalar: the `Field` instance that the formula pipeline
//! evaluates in.
//!
//! A value is a fraction `num / den` with a positive denominator. Fractions
//! are not reduced; equality (`==`) compares the denoted values by cross
//! multiplication, so `2/4 == 1/2`. Every operation carries an exact
//! contract over the representation, and a precondition that keeps all
//! results representable in `i64`.
use vstd::prelude::*;

use crate::algebra::{Field, Group, One, Ring, Zero};

verus! {

/// An exact fraction of two 64-bit integers, with a positive denominator.
#[derive(Clone, Copy, Eq, Debug)]
pub struct Rational {
    pub num: i64,
    pub den: i64,
}

impl Rational {
    /// Well-formedness: the denominator is positive.
    pub open spec fn wf(self) -> bool {
        0 < self.den
    }

    /// Two fractions denote the same value iff their cross products agree.
    pub open spec fn eqv(self, other: Rational) -> bool {
        self.num * other.den == other.num * self.den
    }

    /// The fraction denotes the integer `n`.
    pub open spec fn is_int(self, n: int) -> bool {
        self.num == n * self.den
    }

    pub fn new(num: i64, den: i64) -> (r: Rational)
        requires
            0 < den,
        ensures
            r.wf(),
            r.num == num,
            r.den == den,
    {
        Rational { num, den }
    }

    pub fn from_int(n: i64) -> (r: Rational)
        ensures
            r.wf(),
            r.is_int(n as int),
            r == (Rational { num: n, den: 1i64 }),
    {
        Rational { num: n, den: 1 }
    }

    /// Whether the absolute value is representable.
    pub open spec fn abs_ok(self) -> bool {
        self.num != i64::MIN
    }

    /// The exact absolute value (same denominator).
    pub open spec fn abs_spec(self) -> Rational {
        if self.num >= 0 {
            self
        } else {
            Rational { num: (-self.num) as i64, den: self.den }
        }
    }

    pub fn abs(self) -> (r: Rational)
        requires
            self.abs_ok(),
        ensures
            r == self.abs_spec(),
    {
        if self.num >= 0 {
            self
        } else {
            Rational { num: -self.num, den: self.den }
        }
    }

    /// The fraction denotes a strictly positive value.
    pub open spec fn is_pos(self) -> bool {
        self.num > 0
    }

    /// The fraction denotes zero.
    pub open spec fn is_zero(self) -> bool {
        self.num == 0
    }
}

/// The product of two `i64` values fits comfortably inside `i128`.
proof fn lemma_i64_prod_fits(a: int, b: int)
    requires
        i64::MIN <= a <= i64::MAX,
        i64::MIN <= b <= i64::MAX,
    ensures
        i128::MIN < a * b < i128::MAX,
{
    assert(i128::MIN < a * b < i128::MAX) by (nonlinear_arith)
        requires
            i64::MIN <= a <= i64::MAX,
            i64::MIN <= b <= i64::MAX,
    ;
}

/// Cross multiplication of the denoted values, exactly; total on all
/// representations.
impl PartialEq for Rational {
    fn eq(&self, other: &Rational) -> (r: bool) {
        proof {
            lemma_i64_prod_fits(self.num as int, other.den as int);
            lemma_i64_prod_fits(other.num as int, self.den as int);
        }
        (self.num as i128) * (other.den as i128) == (other.num as i128) * (self.den as i128)
    }
}

impl vstd::std_specs::cmp::PartialEqSpecImpl for Rational {
    open spec fn obeys_eq_spec() -> bool {
        true
    }

    open spec fn eq_spec(&self, other: &Rational) -> bool {
        self.eqv(*other)
    }
}

impl Zero for Rational {
    open spec fn o_spec() -> Rational {
        Rational { num: 0i64, den: 1i64 }
    }

    fn o() -> Rational {
        Rational { num: 0, den: 1 }
    }
}

impl One for Rational {
    open spec fn u_spec() -> Rational {
        Rational { num: 1i64, den: 1i64 }
    }

    fn u() -> Rational {
        Rational { num: 1, den: 1 }
    }
}

impl Group for Rational {
    open spec fn add_ok(self, rhs: Rational) -> bool {
        &&& self.wf()
        &&& rhs.wf()
        &&& i64::MIN <= self.num * rhs.den + rhs.num * self.den <= i64::MAX
        &&& self.den * rhs.den <= i64::MAX
    }

    open spec fn add_spec(self, rhs: Rational) -> Rational {
        Rational {
            num: (self.num * rhs.den + rhs.num * self.den) as i64,
            den: (self.den * rhs.den) as i64,
        }
    }

    fn add(self, rhs: Rational) -> Rational {
        proof {
            lemma_i64_prod_fits(self.num as int, rhs.den as int);
            lemma_i64_prod_fits(rhs.num as int, self.den as int);
            lemma_i64_prod_fits(self.den as int, rhs.den as int);
        }
        let n: i128 = (self.num as i128) * (rhs.den as i128) + (rhs.num as i128) * (self.den as i128);
        let d: i128 = (self.den as i128) * (rhs.den as i128);
        Rational { num: n as i64, den: d as i64 }
    }
}

impl Ring for Rational {
    open spec fn sub_ok(self, rhs: Rational) -> bool {
        &&& self.wf()
        &&& rhs.wf()
        &&& i64::MIN <= self.num * rhs.den - rhs.num * self.den <= i64::MAX
        &&& self.den * rhs.den <= i64::MAX
    }

    open spec fn sub_spec(self, rhs: Rational) -> Rational {
        Rational {
            num: (self.num * rhs.den - rhs.num * self.den) as i64,
            den: (self.den * rhs.den) as i64,
        }
    }

    fn sub(self, rhs: Rational) -> Rational {
        proof {
            lemma_i64_prod_fits(self.num as int, rhs.den as int);
            lemma_i64_prod_fits(rhs.num as int, self.den as int);
            lemma_i64_prod_fits(self.den as int, rhs.den as int);
        }
        let n: i128 = (self.num as i128) * (rhs.den as i128) - (rhs.num as i128) * (self.den as i128);
        let d: i128 = (self.den as i128) * (rhs.den as i128);
        Rational { num: n as i64, den: d as i64 }
    }

    open spec fn neg_ok(self) -> bool {
        self.wf() && self.num != i64::MIN
    }

    open spec fn neg_spec(self) -> Rational {
        Rational { num: (-self.num) as i64, den: self.den }
    }

    fn neg(self) -> Rational {
        Rational { num: -self.num, den: self.den }
    }

    open spec fn mul_ok(self, rhs: Rational) -> bool {
        &&& self.wf()
        &&& rhs.wf()
        &&& i64::MIN <= self.num * rhs.num <= i64::MAX
        &&& self.den * rhs.den <= i64::MAX
    }

    open spec fn mul_spec(self, rhs: Rational) -> Rational {
        Rational { num: (self.num * rhs.num) as i64, den: (self.den * rhs.den) as i64 }
    }

    fn mul(self, rhs: Rational) -> Rational {
        proof {
            lemma_i64_prod_fits(self.num as int, rhs.num as int);
            lemma_i64_prod_fits(self.den as int, rhs.den as int);
        }
        let n: i128 = (self.num as i128) * (rhs.num as i128);
        let d: i128 = (self.den as i128) * (rhs.den as i128);
        Rational { num: n as i64, den: d as i64 }
    }
}

impl Field for Rational {
    /// Defined exactly when the divisor is non-zero and the cross products
    /// stay representable; the result's denominator is normalized positive.
    open spec fn div_ok(self, rhs: Rational) -> bool {
        &&& self.wf()
        &&& rhs.wf()
        &&& rhs.num != 0
        &&& -(i64::MAX as int) <= self.num * rhs.den <= i64::MAX
        &&& -(i64::MAX as int) <= self.den * rhs.num <= i64::MAX
    }

    open spec fn div_spec(self, rhs: Rational) -> Rational {
        if rhs.num > 0 {
            Rational { num: (self.num * rhs.den) as i64, den: (self.den * rhs.num) as i64 }
        } else {
            Rational { num: (-(self.num * rhs.den)) as i64, den: (-(self.den * rhs.num)) as i64 }
        }
    }

    fn div(self, rhs: Rational) -> Rational {
        proof {
            lemma_i64_prod_fits(self.num as int, rhs.den as int);
            lemma_i64_prod_fits(self.den as int, rhs.num as int);
        }
        let n: i128 = (self.num as i128) * (rhs.den as i128);
        let d: i128 = (self.den as i128) * (rhs.num as i128);
        proof {
            assert(((self.den as int) * (rhs.num as int) < 0 <==> rhs.num < 0) && (self.den as int)
                * (rhs.num as int) != 0) by (nonlinear_arith)
                requires
                    self.den as int > 0,
                    rhs.num as int != 0,
            ;
        }
        if d < 0 {
            Rational { num: (-n) as i64, den: (-d) as i64 }
        } else {
            Rational { num: n as i64, den: d as i64 }
        }
    }
}

} // verus!
