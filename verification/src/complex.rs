//! Complex numbers over any type of component, with the usual operators.

use std::ops::{Add, Mul, Neg, Not, Sub};
use vstd::prelude::*;
use vstd::std_specs::cmp::PartialEqSpec;
use vstd::std_specs::ops::{AddSpec, MulSpec, NegSpec, NotSpec, SubSpec};
use vstd::string::StringExecFns;
use crate::decimal::{decimal, integer_to_string, signed_decimal};

verus! {

/// A complex number.
#[derive(Clone, Copy, Debug)]
pub struct Complex<T> {
    /// The real part
    pub re: T,
    /// The imaginary part
    pub im: T,
}

impl<T> Add for Complex<T> where T: Add<Output = T> {
    type Output = Self;

    /// Adds component by component.
    fn add(self, rhs: Self) -> Self {
        Complex { re: self.re + rhs.re, im: self.im + rhs.im }
    }
}

impl<T> vstd::std_specs::ops::AddSpecImpl for Complex<T> where T: Add<Output = T> {
    open spec fn obeys_add_spec() -> bool {
        T::obeys_add_spec()
    }

    open spec fn add_req(self, rhs: Self) -> bool {
        self.re.add_req(rhs.re) && self.im.add_req(rhs.im)
    }

    open spec fn add_spec(self, rhs: Self) -> Self {
        Complex { re: self.re.add_spec(rhs.re), im: self.im.add_spec(rhs.im) }
    }
}

impl<T, O> Neg for Complex<T> where T: Neg<Output = O> {
    type Output = Complex<O>;

    /// Negates both components.
    fn neg(self) -> Complex<O> {
        Complex { re: self.re.neg(), im: self.im.neg() }
    }
}

impl<T, O> vstd::std_specs::ops::NegSpecImpl for Complex<T> where T: Neg<Output = O> {
    open spec fn obeys_neg_spec() -> bool {
        T::obeys_neg_spec()
    }

    open spec fn neg_req(self) -> bool {
        self.re.neg_req() && self.im.neg_req()
    }

    open spec fn neg_spec(self) -> Complex<O> {
        Complex { re: self.re.neg_spec(), im: self.im.neg_spec() }
    }
}

impl<T, O> Not for Complex<T> where T: Not<Output = O> {
    type Output = Complex<O>;

    /// Complements both components.
    fn not(self) -> Complex<O> {
        Complex { re: self.re.not(), im: self.im.not() }
    }
}

impl<T, O> vstd::std_specs::ops::NotSpecImpl for Complex<T> where T: Not<Output = O> {
    open spec fn obeys_not_spec() -> bool {
        T::obeys_not_spec()
    }

    open spec fn not_req(self) -> bool {
        self.re.not_req() && self.im.not_req()
    }

    open spec fn not_spec(self) -> Complex<O> {
        Complex { re: self.re.not_spec(), im: self.im.not_spec() }
    }
}

impl<T> Complex<T> where T: Add<Output = T> + Copy {
    /// Adds `rhs` to this number, component by component, in place.
    pub fn add_assign(&mut self, rhs: Complex<T>)
        requires
            old(self).add_req(rhs),
        ensures
            T::obeys_add_spec() ==> *final(self) == old(self).add_spec(rhs),
    {
        self.re = self.re + rhs.re;
        self.im = self.im + rhs.im;
    }
}

impl<T> PartialEq for Complex<T> where T: PartialEq {
    /// Two numbers are equal where both of their components are.
    fn eq(&self, other: &Complex<T>) -> (equal: bool) {
        self.re == other.re && self.im == other.im
    }
}

impl<T> vstd::std_specs::cmp::PartialEqSpecImpl for Complex<T> where T: PartialEq {
    open spec fn obeys_eq_spec() -> bool {
        T::obeys_eq_spec()
    }

    open spec fn eq_spec(&self, other: &Complex<T>) -> bool {
        self.re.eq_spec(&other.re) && self.im.eq_spec(&other.im)
    }
}

impl<T> Mul for Complex<T> where T: Mul<Output = T> + Add<Output = T> + Sub<Output = T> + Copy {
    type Output = Self;

    /// Multiplies as complex numbers are multiplied: the real part is the
    /// product of the real parts less that of the imaginary parts, the
    /// imaginary part is the sum of the two mixed products.
    fn mul(self, rhs: Complex<T>) -> Self {
        let re = (self.re * rhs.re) - (self.im * rhs.im);
        let im = (self.re * rhs.im) + (self.im * rhs.re);
        Complex { re, im }
    }
}

impl<T> vstd::std_specs::ops::MulSpecImpl for Complex<T> where T: Mul<Output = T> + Add<Output = T> + Sub<Output = T> + Copy {
    open spec fn obeys_mul_spec() -> bool {
        T::obeys_mul_spec() && T::obeys_add_spec() && T::obeys_sub_spec()
    }

    /// Every product may be formed, and so may the difference and the sum
    /// of the products. The products are known only where `T` multiplies as
    /// specified.
    open spec fn mul_req(self, rhs: Complex<T>) -> bool {
        &&& T::obeys_mul_spec()
        &&& self.re.mul_req(rhs.re)
        &&& self.im.mul_req(rhs.im)
        &&& self.re.mul_req(rhs.im)
        &&& self.im.mul_req(rhs.re)
        &&& self.re.mul_spec(rhs.re).sub_req(self.im.mul_spec(rhs.im))
        &&& self.re.mul_spec(rhs.im).add_req(self.im.mul_spec(rhs.re))
    }

    open spec fn mul_spec(self, rhs: Complex<T>) -> Complex<T> {
        Complex {
            re: self.re.mul_spec(rhs.re).sub_spec(self.im.mul_spec(rhs.im)),
            im: self.re.mul_spec(rhs.im).add_spec(self.im.mul_spec(rhs.re)),
        }
    }
}

/// A complex number in writing: the real part, the sign of the imaginary
/// part between two spaces, the magnitude of the imaginary part, and `i`.
pub open spec fn written(re: Seq<char>, negative: bool, magnitude: Seq<char>) -> Seq<char> {
    re + seq![' ', if negative { '-' } else { '+' }, ' '] + magnitude + seq!['i']
}

/// Writes a complex number from its parts, each of them already in writing:
/// the real part, whether the imaginary part is below zero, and the
/// magnitude of the imaginary part.
pub fn complex_text(re: &str, negative: bool, magnitude: &str) -> (text: String)
    ensures
        text@ == written(re@, negative, magnitude@),
{
    proof {
        reveal_strlit(" - ");
        reveal_strlit(" + ");
        reveal_strlit("i");
    }
    let mut text = String::from_str(re);
    text.append(if negative { " - " } else { " + " });
    text.append(magnitude);
    text.append("i");
    assert(text@ =~= written(re@, negative, magnitude@));
    text
}

/// Trusted: `num::Signed::abs` on an `i32` returns the number itself where
/// it is not negative and the number negated where it is. The least `i32`
/// is left out, since its negation does not fit.
#[verifier::external_body]
fn magnitude(n: i32) -> (m: i32)
    requires
        n != i32::MIN,
    ensures
        n >= 0 ==> m == n,
        n < 0 ==> m == -n,
{
    num::Signed::abs(&n)
}

impl Complex<i32> {
    /// This number in writing, its parts in decimal.
    pub open spec fn text(self) -> Seq<char> {
        written(
            signed_decimal(self.re as int),
            self.im < 0,
            decimal(vstd::math::abs(self.im as int)),
        )
    }

    /// Writes this number with its parts in decimal, as in `3 - 4i`.
    pub fn to_text(&self) -> (text: String)
        requires
            self.im != i32::MIN,
        ensures
            text@ == self.text(),
    {
        let negative = self.im < i32::default();
        let re = integer_to_string(self.re as i64);
        let magnitude = integer_to_string(magnitude(self.im) as i64);
        complex_text(re.as_str(), negative, magnitude.as_str())
    }
}

} // verus!
