//! The scalar algebra the tape records and the reverse sweep computes over.
//!
//! Every elementary operation the engine supports appears here twice: as an
//! uninterpreted-per-instance `spec` function giving the operation's meaning
//! in contracts, and as an executable method whose only promise is to return
//! exactly that meaning. The three `law_*` obligations are the algebraic
//! facts the reverse sweep relies on (identities for addition, annihilation
//! and identity for multiplication); every instance must prove them.

use vstd::prelude::*;

verus! {

/// A value the tape can carry: closed under the engine's elementary
/// operations, freely copyable, with a zero and a one.
pub trait Scalar: Sized + Copy {
    /// The additive identity.
    spec fn zero_spec() -> Self;

    /// The multiplicative identity.
    spec fn one_spec() -> Self;

    /// Meaning of addition.
    spec fn add_spec(a: Self, b: Self) -> Self;

    /// Meaning of subtraction.
    spec fn sub_spec(a: Self, b: Self) -> Self;

    /// Meaning of multiplication.
    spec fn mul_spec(a: Self, b: Self) -> Self;

    /// Meaning of division.
    spec fn div_spec(a: Self, b: Self) -> Self;

    /// Meaning of negation.
    spec fn neg_spec(a: Self) -> Self;

    /// Meaning of the reciprocal.
    spec fn recip_spec(a: Self) -> Self;

    /// Meaning of the absolute value.
    spec fn abs_spec(a: Self) -> Self;

    /// Meaning of the sign (the derivative of the absolute value).
    spec fn sign_spec(a: Self) -> Self;

    /// Meaning of the square root.
    spec fn sqrt_spec(a: Self) -> Self;

    /// Meaning of the exponential.
    spec fn exp_spec(a: Self) -> Self;

    /// Meaning of the natural logarithm.
    spec fn ln_spec(a: Self) -> Self;

    /// Meaning of the power with an integer exponent.
    spec fn powi_spec(a: Self, n: i32) -> Self;

    /// Meaning of the power with a scalar exponent.
    spec fn powf_spec(a: Self, b: Self) -> Self;

    /// Meaning of the sine.
    spec fn sin_spec(a: Self) -> Self;

    /// Meaning of the cosine.
    spec fn cos_spec(a: Self) -> Self;

    /// Meaning of the tangent.
    spec fn tan_spec(a: Self) -> Self;

    /// Meaning of the arcsine.
    spec fn asin_spec(a: Self) -> Self;

    /// Meaning of the arccosine.
    spec fn acos_spec(a: Self) -> Self;

    /// Meaning of the arctangent.
    spec fn atan_spec(a: Self) -> Self;

    /// Meaning of the hyperbolic sine.
    spec fn sinh_spec(a: Self) -> Self;

    /// Meaning of the hyperbolic cosine.
    spec fn cosh_spec(a: Self) -> Self;

    /// Meaning of the hyperbolic tangent.
    spec fn tanh_spec(a: Self) -> Self;

    /// Meaning of the inverse hyperbolic sine.
    spec fn asinh_spec(a: Self) -> Self;

    /// Meaning of the inverse hyperbolic cosine.
    spec fn acosh_spec(a: Self) -> Self;

    /// Meaning of the inverse hyperbolic tangent.
    spec fn atanh_spec(a: Self) -> Self;

    /// Meaning of embedding a small machine integer.
    spec fn from_i32_spec(n: i32) -> Self;

    /// Zero is a two-sided additive identity.
    proof fn law_add_zero(a: Self)
        ensures
            Self::add_spec(a, Self::zero_spec()) == a,
            Self::add_spec(Self::zero_spec(), a) == a,
    ;

    /// Zero annihilates on the right of a product.
    proof fn law_mul_zero(a: Self)
        ensures
            Self::mul_spec(a, Self::zero_spec()) == Self::zero_spec(),
    ;

    /// One is a left multiplicative identity.
    proof fn law_one_mul(a: Self)
        ensures
            Self::mul_spec(Self::one_spec(), a) == a,
    ;

    /// The additive identity, as a runtime value.
    fn zero() -> (r: Self)
        ensures
            r == Self::zero_spec(),
    ;

    /// The multiplicative identity, as a runtime value.
    fn one() -> (r: Self)
        ensures
            r == Self::one_spec(),
    ;

    /// Addition.
    fn add(self, o: Self) -> (r: Self)
        ensures
            r == Self::add_spec(self, o),
    ;

    /// Subtraction.
    fn sub(self, o: Self) -> (r: Self)
        ensures
            r == Self::sub_spec(self, o),
    ;

    /// Multiplication.
    fn mul(self, o: Self) -> (r: Self)
        ensures
            r == Self::mul_spec(self, o),
    ;

    /// Division.
    fn div(self, o: Self) -> (r: Self)
        ensures
            r == Self::div_spec(self, o),
    ;

    /// Negation.
    fn neg(self) -> (r: Self)
        ensures
            r == Self::neg_spec(self),
    ;

    /// Reciprocal.
    fn recip(self) -> (r: Self)
        ensures
            r == Self::recip_spec(self),
    ;

    /// Absolute value.
    fn abs(self) -> (r: Self)
        ensures
            r == Self::abs_spec(self),
    ;

    /// Sign.
    fn sign(self) -> (r: Self)
        ensures
            r == Self::sign_spec(self),
    ;

    /// Square root.
    fn sqrt(self) -> (r: Self)
        ensures
            r == Self::sqrt_spec(self),
    ;

    /// Exponential.
    fn exp(self) -> (r: Self)
        ensures
            r == Self::exp_spec(self),
    ;

    /// Natural logarithm.
    fn ln(self) -> (r: Self)
        ensures
            r == Self::ln_spec(self),
    ;

    /// Power with an integer exponent.
    fn powi(self, n: i32) -> (r: Self)
        ensures
            r == Self::powi_spec(self, n),
    ;

    /// Power with a scalar exponent.
    fn powf(self, b: Self) -> (r: Self)
        ensures
            r == Self::powf_spec(self, b),
    ;

    /// Sine.
    fn sin(self) -> (r: Self)
        ensures
            r == Self::sin_spec(self),
    ;

    /// Cosine.
    fn cos(self) -> (r: Self)
        ensures
            r == Self::cos_spec(self),
    ;

    /// Tangent.
    fn tan(self) -> (r: Self)
        ensures
            r == Self::tan_spec(self),
    ;

    /// Arcsine.
    fn asin(self) -> (r: Self)
        ensures
            r == Self::asin_spec(self),
    ;

    /// Arccosine.
    fn acos(self) -> (r: Self)
        ensures
            r == Self::acos_spec(self),
    ;

    /// Arctangent.
    fn atan(self) -> (r: Self)
        ensures
            r == Self::atan_spec(self),
    ;

    /// Hyperbolic sine.
    fn sinh(self) -> (r: Self)
        ensures
            r == Self::sinh_spec(self),
    ;

    /// Hyperbolic cosine.
    fn cosh(self) -> (r: Self)
        ensures
            r == Self::cosh_spec(self),
    ;

    /// Hyperbolic tangent.
    fn tanh(self) -> (r: Self)
        ensures
            r == Self::tanh_spec(self),
    ;

    /// Inverse hyperbolic sine.
    fn asinh(self) -> (r: Self)
        ensures
            r == Self::asinh_spec(self),
    ;

    /// Inverse hyperbolic cosine.
    fn acosh(self) -> (r: Self)
        ensures
            r == Self::acosh_spec(self),
    ;

    /// Inverse hyperbolic tangent.
    fn atanh(self) -> (r: Self)
        ensures
            r == Self::atanh_spec(self),
    ;

    /// Embed a small machine integer.
    fn from_i32(n: i32) -> (r: Self)
        ensures
            r == Self::from_i32_spec(n),
    ;
}

} // verus!
