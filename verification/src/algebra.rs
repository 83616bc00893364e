//! Algebraic capability hierarchy: `Zero`, `One`, `Group`, `Ring`, `Field`,
//! `Module`, `VectorSpace`, and the generic complex-pair type `Complex<T>`.
//!
//! Each capability is a compile-time-checked set of required operations. The
//! algebraic laws (associativity, distributivity, identities, inverses) are
//! documented invariants of the provided instances, not runtime checks: every
//! operation instead carries an exact contract (`add_spec` and friends) from
//! which a caller can derive whatever law it needs on concrete values.
//!
//! The operations are partial on machine types: each comes with an `.._ok`
//! precondition that rules out overflow (and, for `Field` division, a
//! degenerate divisor), so that no verified operation panics.
use vstd::prelude::*;

verus! {

/// A distinguished additive identity value.
pub trait Zero: Sized + Copy {
    /// The additive identity, as a specification-level value.
    spec fn o_spec() -> Self;

    /// The additive identity `O`.
    fn o() -> (r: Self)
        ensures
            r == Self::o_spec(),
    ;
}

/// A distinguished multiplicative identity value.
pub trait One: Sized + Copy {
    /// The multiplicative identity, as a specification-level value.
    spec fn u_spec() -> Self;

    /// The multiplicative identity `U`.
    fn u() -> (r: Self)
        ensures
            r == Self::u_spec(),
    ;
}

/// Closed, associative addition with identity `O`.
///
/// Law (documented invariant): on values where the operations are defined,
/// addition is associative and commutative, and `O` is neutral.
pub trait Group: Zero {
    /// Whether `self + rhs` is representable.
    spec fn add_ok(self, rhs: Self) -> bool;

    /// The exact value of `self + rhs`.
    spec fn add_spec(self, rhs: Self) -> Self;

    fn add(self, rhs: Self) -> (r: Self)
        requires
            self.add_ok(rhs),
        ensures
            r == self.add_spec(rhs),
    ;
}

/// A `Group` with associative multiplication, multiplicative identity `U`,
/// subtraction and negation.
///
/// Law (documented invariant): multiplication is associative with identity
/// `U` and distributes over addition; `a - b` adds the additive inverse.
pub trait Ring: Group + One {
    /// Whether `self - rhs` is representable.
    spec fn sub_ok(self, rhs: Self) -> bool;

    /// The exact value of `self - rhs`.
    spec fn sub_spec(self, rhs: Self) -> Self;

    fn sub(self, rhs: Self) -> (r: Self)
        requires
            self.sub_ok(rhs),
        ensures
            r == self.sub_spec(rhs),
    ;

    /// Whether `-self` is representable.
    spec fn neg_ok(self) -> bool;

    /// The exact value of `-self`.
    spec fn neg_spec(self) -> Self;

    fn neg(self) -> (r: Self)
        requires
            self.neg_ok(),
        ensures
            r == self.neg_spec(),
    ;

    /// Whether `self * rhs` is representable.
    spec fn mul_ok(self, rhs: Self) -> bool;

    /// The exact value of `self * rhs`.
    spec fn mul_spec(self, rhs: Self) -> Self;

    fn mul(self, rhs: Self) -> (r: Self)
        requires
            self.mul_ok(rhs),
        ensures
            r == self.mul_spec(rhs),
    ;
}

/// A `Ring` where every non-zero element has a multiplicative inverse.
///
/// Law (documented invariant): for non-zero `b` with `a.div_ok(b)`,
/// `a.div_spec(b)` is the unique solution `x` of `x * b == a`.
pub trait Field: Ring {
    /// Whether `self / rhs` is defined and representable; never holds for a
    /// degenerate (zero) divisor.
    spec fn div_ok(self, rhs: Self) -> bool;

    /// The exact value of `self / rhs`.
    spec fn div_spec(self, rhs: Self) -> Self;

    fn div(self, rhs: Self) -> (r: Self)
        requires
            self.div_ok(rhs),
        ensures
            r == self.div_spec(rhs),
    ;
}

/// An additive group admitting scaling by elements of the ring `R`.
pub trait Module<R: Ring>: Group {
    /// Whether `r * self` is representable.
    spec fn scale_ok(self, r: R) -> bool;

    /// The exact value of `r * self`.
    spec fn scale_spec(self, r: R) -> Self;

    fn scale(self, r: R) -> (res: Self)
        requires
            self.scale_ok(r),
        ensures
            res == self.scale_spec(r),
    ;
}

/// A `Module` over a `Field`.
pub trait VectorSpace<F: Field>: Module<F> {

}

// Group of u32
impl Zero for u32 {
    open spec fn o_spec() -> u32 {
        0u32
    }

    fn o() -> u32 {
        0
    }
}

impl Group for u32 {
    open spec fn add_ok(self, rhs: u32) -> bool {
        self + rhs <= u32::MAX
    }

    open spec fn add_spec(self, rhs: u32) -> u32 {
        (self + rhs) as u32
    }

    fn add(self, rhs: u32) -> u32 {
        self + rhs
    }
}

// Ring of i32
impl Zero for i32 {
    open spec fn o_spec() -> i32 {
        0i32
    }

    fn o() -> i32 {
        0
    }
}

impl One for i32 {
    open spec fn u_spec() -> i32 {
        1i32
    }

    fn u() -> i32 {
        1
    }
}

impl Group for i32 {
    open spec fn add_ok(self, rhs: i32) -> bool {
        i32::MIN <= self + rhs <= i32::MAX
    }

    open spec fn add_spec(self, rhs: i32) -> i32 {
        (self + rhs) as i32
    }

    fn add(self, rhs: i32) -> i32 {
        self + rhs
    }
}

impl Ring for i32 {
    open spec fn sub_ok(self, rhs: i32) -> bool {
        i32::MIN <= self - rhs <= i32::MAX
    }

    open spec fn sub_spec(self, rhs: i32) -> i32 {
        (self - rhs) as i32
    }

    fn sub(self, rhs: i32) -> i32 {
        self - rhs
    }

    open spec fn neg_ok(self) -> bool {
        self != i32::MIN
    }

    open spec fn neg_spec(self) -> i32 {
        (-self) as i32
    }

    fn neg(self) -> i32 {
        -self
    }

    open spec fn mul_ok(self, rhs: i32) -> bool {
        i32::MIN <= self * rhs <= i32::MAX
    }

    open spec fn mul_spec(self, rhs: i32) -> i32 {
        (self * rhs) as i32
    }

    fn mul(self, rhs: i32) -> i32 {
        self * rhs
    }
}

// Complex numbers
/// A complex pair over any scalar `T`; lifts whichever hierarchy level `T`
/// satisfies (Group to Group, Ring to Ring, Field to Field), and is always a
/// `Module`/`VectorSpace` over its own scalar.
#[derive(Clone, Copy, PartialEq, Eq, Debug)]
pub struct Complex<T> {
    pub re: T,
    pub im: T,
}

impl<T: Zero> Complex<T> {
    /// The specification-level lift of a bare scalar: the imaginary part is
    /// the scalar additive identity.
    pub open spec fn lift_spec(re: T) -> Complex<T> {
        Complex { re, im: T::o_spec() }
    }
}

impl<T: Zero> From<T> for Complex<T> {
    fn from(re: T) -> (r: Complex<T>) {
        Complex { re, im: T::o() }
    }
}

impl<T: Zero> vstd::std_specs::convert::FromSpecImpl<T> for Complex<T> {
    open spec fn obeys_from_spec() -> bool {
        true
    }

    open spec fn from_spec(re: T) -> Complex<T> {
        Complex::lift_spec(re)
    }
}

impl<T: Ring> Complex<T> {
    /// Whether the squared norm `re*re + im*im` is representable.
    pub open spec fn norm_sq_ok(self) -> bool {
        &&& self.re.mul_ok(self.re)
        &&& self.im.mul_ok(self.im)
        &&& self.re.mul_spec(self.re).add_ok(self.im.mul_spec(self.im))
    }

    /// The exact squared norm.
    pub open spec fn norm_sq_spec(self) -> T {
        self.re.mul_spec(self.re).add_spec(self.im.mul_spec(self.im))
    }

    pub fn norm_sq(&self) -> (r: T)
        requires
            self.norm_sq_ok(),
        ensures
            r == self.norm_sq_spec(),
    {
        self.re.mul(self.re).add(self.im.mul(self.im))
    }
}

impl<T: Zero> Zero for Complex<T> {
    open spec fn o_spec() -> Complex<T> {
        Complex { re: T::o_spec(), im: T::o_spec() }
    }

    fn o() -> Complex<T> {
        Complex { re: T::o(), im: T::o() }
    }
}

impl<T: Zero + One> One for Complex<T> {
    open spec fn u_spec() -> Complex<T> {
        Complex { re: T::u_spec(), im: T::o_spec() }
    }

    fn u() -> Complex<T> {
        Complex { re: T::u(), im: T::o() }
    }
}

impl<T: Zero + One> Complex<T> {
    /// The imaginary unit, as a specification-level value.
    pub open spec fn i_spec() -> Complex<T> {
        Complex { re: T::o_spec(), im: T::u_spec() }
    }

    /// The imaginary unit `I`.
    pub fn i() -> (r: Complex<T>)
        ensures
            r == Self::i_spec(),
    {
        Complex { re: T::o(), im: T::u() }
    }
}

impl<T: Group> Group for Complex<T> {
    open spec fn add_ok(self, rhs: Complex<T>) -> bool {
        self.re.add_ok(rhs.re) && self.im.add_ok(rhs.im)
    }

    open spec fn add_spec(self, rhs: Complex<T>) -> Complex<T> {
        Complex { re: self.re.add_spec(rhs.re), im: self.im.add_spec(rhs.im) }
    }

    fn add(self, rhs: Complex<T>) -> Complex<T> {
        Complex { re: self.re.add(rhs.re), im: self.im.add(rhs.im) }
    }
}

impl<T: Ring> Ring for Complex<T> {
    open spec fn sub_ok(self, rhs: Complex<T>) -> bool {
        self.re.sub_ok(rhs.re) && self.im.sub_ok(rhs.im)
    }

    open spec fn sub_spec(self, rhs: Complex<T>) -> Complex<T> {
        Complex { re: self.re.sub_spec(rhs.re), im: self.im.sub_spec(rhs.im) }
    }

    fn sub(self, rhs: Complex<T>) -> Complex<T> {
        Complex { re: self.re.sub(rhs.re), im: self.im.sub(rhs.im) }
    }

    open spec fn neg_ok(self) -> bool {
        self.re.neg_ok() && self.im.neg_ok()
    }

    open spec fn neg_spec(self) -> Complex<T> {
        Complex { re: self.re.neg_spec(), im: self.im.neg_spec() }
    }

    fn neg(self) -> Complex<T> {
        Complex { re: self.re.neg(), im: self.im.neg() }
    }

    open spec fn mul_ok(self, rhs: Complex<T>) -> bool {
        &&& self.re.mul_ok(rhs.re)
        &&& self.im.mul_ok(rhs.im)
        &&& self.re.mul_spec(rhs.re).sub_ok(self.im.mul_spec(rhs.im))
        &&& self.re.mul_ok(rhs.im)
        &&& self.im.mul_ok(rhs.re)
        &&& self.re.mul_spec(rhs.im).add_ok(self.im.mul_spec(rhs.re))
    }

    open spec fn mul_spec(self, rhs: Complex<T>) -> Complex<T> {
        Complex {
            re: self.re.mul_spec(rhs.re).sub_spec(self.im.mul_spec(rhs.im)),
            im: self.re.mul_spec(rhs.im).add_spec(self.im.mul_spec(rhs.re)),
        }
    }

    fn mul(self, rhs: Complex<T>) -> Complex<T> {
        Complex {
            re: self.re.mul(rhs.re).sub(self.im.mul(rhs.im)),
            im: self.re.mul(rhs.im).add(self.im.mul(rhs.re)),
        }
    }
}

impl<T: Field> Complex<T> {
    /// The numerator of `self / rhs` before the scalar division: `self`
    /// multiplied by the conjugate of `rhs`.
    pub open spec fn div_num_spec(self, rhs: Complex<T>) -> Complex<T> {
        Complex {
            re: self.re.mul_spec(rhs.re).add_spec(self.im.mul_spec(rhs.im)),
            im: self.im.mul_spec(rhs.re).sub_spec(self.re.mul_spec(rhs.im)),
        }
    }

    /// Whether the conjugate products of `self / rhs` are representable.
    pub open spec fn div_num_ok(self, rhs: Complex<T>) -> bool {
        &&& self.re.mul_ok(rhs.re)
        &&& self.im.mul_ok(rhs.im)
        &&& self.re.mul_spec(rhs.re).add_ok(self.im.mul_spec(rhs.im))
        &&& self.im.mul_ok(rhs.re)
        &&& self.re.mul_ok(rhs.im)
        &&& self.im.mul_spec(rhs.re).sub_ok(self.re.mul_spec(rhs.im))
    }
}

impl<T: Field> Field for Complex<T> {
    /// Division multiplies by the conjugate and divides componentwise by the
    /// divisor's squared norm; it is undefined (excluded here, where the
    /// scalar's own `div_ok` excludes it) when that squared norm is the
    /// additive identity.
    open spec fn div_ok(self, rhs: Complex<T>) -> bool {
        &&& self.div_num_ok(rhs)
        &&& rhs.norm_sq_ok()
        &&& self.div_num_spec(rhs).re.div_ok(rhs.norm_sq_spec())
        &&& self.div_num_spec(rhs).im.div_ok(rhs.norm_sq_spec())
    }

    open spec fn div_spec(self, rhs: Complex<T>) -> Complex<T> {
        Complex {
            re: self.div_num_spec(rhs).re.div_spec(rhs.norm_sq_spec()),
            im: self.div_num_spec(rhs).im.div_spec(rhs.norm_sq_spec()),
        }
    }

    fn div(self, rhs: Complex<T>) -> Complex<T> {
        let n = rhs.norm_sq();
        Complex {
            re: self.re.mul(rhs.re).add(self.im.mul(rhs.im)).div(n),
            im: self.im.mul(rhs.re).sub(self.re.mul(rhs.im)).div(n),
        }
    }
}

impl<T: Ring> Module<T> for Complex<T> {
    open spec fn scale_ok(self, r: T) -> bool {
        r.mul_ok(self.re) && r.mul_ok(self.im)
    }

    open spec fn scale_spec(self, r: T) -> Complex<T> {
        Complex { re: r.mul_spec(self.re), im: r.mul_spec(self.im) }
    }

    fn scale(self, r: T) -> Complex<T> {
        Complex { re: r.mul(self.re), im: r.mul(self.im) }
    }
}

impl<T: Field> VectorSpace<T> for Complex<T> {

}

} // verus!
