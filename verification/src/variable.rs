//! Value-carrying handles and the operator set that records onto the tape.
//!
//! A [`Variable`] is a copyable pair of a tape index and the forward value of
//! the node at that index; copying a handle records nothing. Every operation
//! here appends exactly one node carrying the classical local partial
//! derivatives evaluated at the operand values, and returns a fresh handle
//! whose value is the operation's result in the scalar algebra. Constant
//! operands never receive a node of their own. Compound-assignment shapes
//! are spelled by rebinding (`x = x.add(tape, y)`): a node, once recorded,
//! is never rewritten.
//!
//! Every handle is interpreted against the tape it is passed with; handing a
//! variable to a tape other than the one that minted it is a caller error
//! that these contracts rule out only as far as the index bound goes.

use vstd::prelude::*;

use crate::scalar::Scalar;
use crate::tape::binary_node;
use crate::tape::leaf_node;
use crate::tape::unary_node;
use crate::tape::Tape;

verus! {

/// A forward value bound to the tape slot that produced it. Copyable;
/// duplicating a handle does not touch the tape.
#[derive(Clone, Copy)]
pub struct Variable<T> {
    /// Index of the node that produced this value.
    pub index: usize,
    /// The forward-evaluated value carried by that node.
    pub value: T,
}

impl<T: Scalar> Tape<T> {
    /// Mint an input variable: append one leaf and bind the given value to
    /// it.
    pub fn var(&mut self, value: T) -> (v: Variable<T>)
        requires
            old(self).wf(),
        ensures
            final(self).wf(),
            v.index == old(self)@.len(),
            v.value == value,
            final(self)@ == old(self)@.push(leaf_node::<T>(v.index)),
    {
        let i = self.push_leaf();
        Variable { index: i, value }
    }

    /// Mint one input variable per element, in order: element `j` of the
    /// result is a leaf at index `old length + j` carrying `values[j]`.
    pub fn vars(&mut self, values: &Vec<T>) -> (vs: Vec<Variable<T>>)
        requires
            old(self).wf(),
        ensures
            final(self).wf(),
            vs@.len() == values@.len(),
            final(self)@.len() == old(self)@.len() + values@.len(),
            forall|j: int| 0 <= j < old(self)@.len() ==> final(self)@[j] == old(self)@[j],
            forall|j: int|
                0 <= j < values@.len() ==> (#[trigger] vs@[j]).index == old(self)@.len() + j
                    && vs@[j].value == values@[j]
                    && final(self)@[old(self)@.len() + j] == leaf_node::<T>(vs@[j].index),
    {
        let n = values.len();
        let mut vs: Vec<Variable<T>> = Vec::new();
        let mut k: usize = 0;
        while k < n
            invariant
                n == values@.len(),
                k <= n,
                self.wf(),
                vs@.len() == k,
                self@.len() == old(self)@.len() + k,
                forall|j: int| 0 <= j < old(self)@.len() ==> self@[j] == old(self)@[j],
                forall|j: int|
                    0 <= j < k ==> (#[trigger] vs@[j]).index == old(self)@.len() + j
                        && vs@[j].value == values@[j]
                        && self@[old(self)@.len() + j] == leaf_node::<T>(vs@[j].index),
            decreases n - k,
        {
            let v = self.var(values[k]);
            vs.push(v);
            k = k + 1;
        }
        vs
    }
}

impl<T: Scalar> Variable<T> {
    /// Addition; partials 1 and 1. Records one two-parent node.
    pub fn add(self, tape: &mut Tape<T>, rhs: Variable<T>) -> (r: Variable<T>)
        requires
            old(tape).wf(),
            self.index < old(tape)@.len(),
            rhs.index < old(tape)@.len(),
        ensures
            final(tape).wf(),
            r.index == old(tape)@.len(),
            final(tape)@ == old(tape)@.push(
                binary_node::<T>(self.index, T::one_spec(), rhs.index, T::one_spec()),
            ),
            r.value == T::add_spec(self.value, rhs.value),
    {
        let d0 = T::one();
        let d1 = T::one();
        let v = self.value.add(rhs.value);
        let i = tape.push_binary(self.index, d0, rhs.index, d1);
        Variable { index: i, value: v }
    }

    /// Subtraction; partials 1 and -1. Records one two-parent node.
    pub fn sub(self, tape: &mut Tape<T>, rhs: Variable<T>) -> (r: Variable<T>)
        requires
            old(tape).wf(),
            self.index < old(tape)@.len(),
            rhs.index < old(tape)@.len(),
        ensures
            final(tape).wf(),
            r.index == old(tape)@.len(),
            final(tape)@ == old(tape)@.push(
                binary_node::<T>(self.index, T::one_spec(), rhs.index, T::neg_spec(T::one_spec())),
            ),
            r.value == T::sub_spec(self.value, rhs.value),
    {
        let d0 = T::one();
        let d1 = T::one().neg();
        let v = self.value.sub(rhs.value);
        let i = tape.push_binary(self.index, d0, rhs.index, d1);
        Variable { index: i, value: v }
    }

    /// Multiplication; partials are the opposite operands. Records one two-parent node.
    pub fn mul(self, tape: &mut Tape<T>, rhs: Variable<T>) -> (r: Variable<T>)
        requires
            old(tape).wf(),
            self.index < old(tape)@.len(),
            rhs.index < old(tape)@.len(),
        ensures
            final(tape).wf(),
            r.index == old(tape)@.len(),
            final(tape)@ == old(tape)@.push(
                binary_node::<T>(self.index, rhs.value, rhs.index, self.value),
            ),
            r.value == T::mul_spec(self.value, rhs.value),
    {
        let d0 = rhs.value;
        let d1 = self.value;
        let v = self.value.mul(rhs.value);
        let i = tape.push_binary(self.index, d0, rhs.index, d1);
        Variable { index: i, value: v }
    }

    /// Division; partials 1/b and -a/b*b. Records one two-parent node.
    pub fn div(self, tape: &mut Tape<T>, rhs: Variable<T>) -> (r: Variable<T>)
        requires
            old(tape).wf(),
            self.index < old(tape)@.len(),
            rhs.index < old(tape)@.len(),
        ensures
            final(tape).wf(),
            r.index == old(tape)@.len(),
            final(tape)@ == old(tape)@.push(
                binary_node::<T>(self.index, T::recip_spec(rhs.value), rhs.index, T::neg_spec(T::div_spec(self.value, T::mul_spec(rhs.value, rhs.value)))),
            ),
            r.value == T::div_spec(self.value, rhs.value),
    {
        let d0 = rhs.value.recip();
        let d1 = self.value.div(rhs.value.mul(rhs.value)).neg();
        let v = self.value.div(rhs.value);
        let i = tape.push_binary(self.index, d0, rhs.index, d1);
        Variable { index: i, value: v }
    }

    /// Power with a variable exponent; partials b*a^(b-1) and a^b*ln a. Records one two-parent node.
    pub fn powf(self, tape: &mut Tape<T>, rhs: Variable<T>) -> (r: Variable<T>)
        requires
            old(tape).wf(),
            self.index < old(tape)@.len(),
            rhs.index < old(tape)@.len(),
        ensures
            final(tape).wf(),
            r.index == old(tape)@.len(),
            final(tape)@ == old(tape)@.push(
                binary_node::<T>(self.index, T::mul_spec(rhs.value, T::powf_spec(self.value, T::sub_spec(rhs.value, T::one_spec()))), rhs.index, T::mul_spec(T::powf_spec(self.value, rhs.value), T::ln_spec(self.value))),
            ),
            r.value == T::powf_spec(self.value, rhs.value),
    {
        let d0 = rhs.value.mul(self.value.powf(rhs.value.sub(T::one())));
        let d1 = self.value.powf(rhs.value).mul(self.value.ln());
        let v = self.value.powf(rhs.value);
        let i = tape.push_binary(self.index, d0, rhs.index, d1);
        Variable { index: i, value: v }
    }

    /// `self + c`; the constant gets no node; partial 1. Records one one-parent node.
    pub fn add_const(self, tape: &mut Tape<T>, c: T) -> (r: Variable<T>)
        requires
            old(tape).wf(),
            self.index < old(tape)@.len(),
        ensures
            final(tape).wf(),
            r.index == old(tape)@.len(),
            final(tape)@ == old(tape)@.push(unary_node::<T>(self.index, T::one_spec(), r.index)),
            r.value == T::add_spec(self.value, c),
    {
        let d = T::one();
        let v = self.value.add(c);
        let i = tape.push_unary(self.index, d);
        Variable { index: i, value: v }
    }

    /// `self - c`; partial 1. Records one one-parent node.
    pub fn sub_const(self, tape: &mut Tape<T>, c: T) -> (r: Variable<T>)
        requires
            old(tape).wf(),
            self.index < old(tape)@.len(),
        ensures
            final(tape).wf(),
            r.index == old(tape)@.len(),
            final(tape)@ == old(tape)@.push(unary_node::<T>(self.index, T::one_spec(), r.index)),
            r.value == T::sub_spec(self.value, c),
    {
        let d = T::one();
        let v = self.value.sub(c);
        let i = tape.push_unary(self.index, d);
        Variable { index: i, value: v }
    }

    /// `c - self`; partial -1. Records one one-parent node.
    pub fn const_sub(self, tape: &mut Tape<T>, c: T) -> (r: Variable<T>)
        requires
            old(tape).wf(),
            self.index < old(tape)@.len(),
        ensures
            final(tape).wf(),
            r.index == old(tape)@.len(),
            final(tape)@ == old(tape)@.push(unary_node::<T>(self.index, T::neg_spec(T::one_spec()), r.index)),
            r.value == T::sub_spec(c, self.value),
    {
        let d = T::one().neg();
        let v = c.sub(self.value);
        let i = tape.push_unary(self.index, d);
        Variable { index: i, value: v }
    }

    /// `self * c`; partial c. Records one one-parent node.
    pub fn mul_const(self, tape: &mut Tape<T>, c: T) -> (r: Variable<T>)
        requires
            old(tape).wf(),
            self.index < old(tape)@.len(),
        ensures
            final(tape).wf(),
            r.index == old(tape)@.len(),
            final(tape)@ == old(tape)@.push(unary_node::<T>(self.index, c, r.index)),
            r.value == T::mul_spec(self.value, c),
    {
        let d = c;
        let v = self.value.mul(c);
        let i = tape.push_unary(self.index, d);
        Variable { index: i, value: v }
    }

    /// `self / c`; partial 1/c. Records one one-parent node.
    pub fn div_const(self, tape: &mut Tape<T>, c: T) -> (r: Variable<T>)
        requires
            old(tape).wf(),
            self.index < old(tape)@.len(),
        ensures
            final(tape).wf(),
            r.index == old(tape)@.len(),
            final(tape)@ == old(tape)@.push(unary_node::<T>(self.index, T::recip_spec(c), r.index)),
            r.value == T::div_spec(self.value, c),
    {
        let d = c.recip();
        let v = self.value.div(c);
        let i = tape.push_unary(self.index, d);
        Variable { index: i, value: v }
    }

    /// `c / self`; partial -c/(self*self). Records one one-parent node.
    pub fn const_div(self, tape: &mut Tape<T>, c: T) -> (r: Variable<T>)
        requires
            old(tape).wf(),
            self.index < old(tape)@.len(),
        ensures
            final(tape).wf(),
            r.index == old(tape)@.len(),
            final(tape)@ == old(tape)@.push(unary_node::<T>(self.index, T::neg_spec(T::div_spec(c, T::mul_spec(self.value, self.value))), r.index)),
            r.value == T::div_spec(c, self.value),
    {
        let d = c.div(self.value.mul(self.value)).neg();
        let v = c.div(self.value);
        let i = tape.push_unary(self.index, d);
        Variable { index: i, value: v }
    }

    /// `self ^ c` with a constant exponent; partial c*self^(c-1). Records one one-parent node.
    pub fn powf_const(self, tape: &mut Tape<T>, c: T) -> (r: Variable<T>)
        requires
            old(tape).wf(),
            self.index < old(tape)@.len(),
        ensures
            final(tape).wf(),
            r.index == old(tape)@.len(),
            final(tape)@ == old(tape)@.push(unary_node::<T>(self.index, T::mul_spec(c, T::powf_spec(self.value, T::sub_spec(c, T::one_spec()))), r.index)),
            r.value == T::powf_spec(self.value, c),
    {
        let d = c.mul(self.value.powf(c.sub(T::one())));
        let v = self.value.powf(c);
        let i = tape.push_unary(self.index, d);
        Variable { index: i, value: v }
    }

    /// Negation; partial -1. Records one one-parent node.
    pub fn neg(self, tape: &mut Tape<T>) -> (r: Variable<T>)
        requires
            old(tape).wf(),
            self.index < old(tape)@.len(),
        ensures
            final(tape).wf(),
            r.index == old(tape)@.len(),
            final(tape)@ == old(tape)@.push(unary_node::<T>(self.index, T::neg_spec(T::one_spec()), r.index)),
            r.value == T::neg_spec(self.value),
    {
        let d = T::one().neg();
        let v = self.value.neg();
        let i = tape.push_unary(self.index, d);
        Variable { index: i, value: v }
    }

    /// Absolute value; the partial is the sign (senseless at zero). Records one one-parent node.
    pub fn abs(self, tape: &mut Tape<T>) -> (r: Variable<T>)
        requires
            old(tape).wf(),
            self.index < old(tape)@.len(),
        ensures
            final(tape).wf(),
            r.index == old(tape)@.len(),
            final(tape)@ == old(tape)@.push(unary_node::<T>(self.index, T::sign_spec(self.value), r.index)),
            r.value == T::abs_spec(self.value),
    {
        let d = self.value.sign();
        let v = self.value.abs();
        let i = tape.push_unary(self.index, d);
        Variable { index: i, value: v }
    }

    /// Reciprocal; partial -1/(a*a). Records one one-parent node.
    pub fn recip(self, tape: &mut Tape<T>) -> (r: Variable<T>)
        requires
            old(tape).wf(),
            self.index < old(tape)@.len(),
        ensures
            final(tape).wf(),
            r.index == old(tape)@.len(),
            final(tape)@ == old(tape)@.push(unary_node::<T>(self.index, T::neg_spec(T::recip_spec(T::mul_spec(self.value, self.value))), r.index)),
            r.value == T::recip_spec(self.value),
    {
        let d = self.value.mul(self.value).recip().neg();
        let v = self.value.recip();
        let i = tape.push_unary(self.index, d);
        Variable { index: i, value: v }
    }

    /// Exponential; the partial is the result itself. Records one one-parent node.
    pub fn exp(self, tape: &mut Tape<T>) -> (r: Variable<T>)
        requires
            old(tape).wf(),
            self.index < old(tape)@.len(),
        ensures
            final(tape).wf(),
            r.index == old(tape)@.len(),
            final(tape)@ == old(tape)@.push(unary_node::<T>(self.index, T::exp_spec(self.value), r.index)),
            r.value == T::exp_spec(self.value),
    {
        let d = self.value.exp();
        let v = self.value.exp();
        let i = tape.push_unary(self.index, d);
        Variable { index: i, value: v }
    }

    /// Natural logarithm; partial 1/a. Records one one-parent node.
    pub fn ln(self, tape: &mut Tape<T>) -> (r: Variable<T>)
        requires
            old(tape).wf(),
            self.index < old(tape)@.len(),
        ensures
            final(tape).wf(),
            r.index == old(tape)@.len(),
            final(tape)@ == old(tape)@.push(unary_node::<T>(self.index, T::recip_spec(self.value), r.index)),
            r.value == T::ln_spec(self.value),
    {
        let d = self.value.recip();
        let v = self.value.ln();
        let i = tape.push_unary(self.index, d);
        Variable { index: i, value: v }
    }

    /// Square root; partial 1/(sqrt a + sqrt a). Records one one-parent node.
    pub fn sqrt(self, tape: &mut Tape<T>) -> (r: Variable<T>)
        requires
            old(tape).wf(),
            self.index < old(tape)@.len(),
        ensures
            final(tape).wf(),
            r.index == old(tape)@.len(),
            final(tape)@ == old(tape)@.push(unary_node::<T>(self.index, T::recip_spec(T::add_spec(T::sqrt_spec(self.value), T::sqrt_spec(self.value))), r.index)),
            r.value == T::sqrt_spec(self.value),
    {
        let d = self.value.sqrt().add(self.value.sqrt()).recip();
        let v = self.value.sqrt();
        let i = tape.push_unary(self.index, d);
        Variable { index: i, value: v }
    }

    /// Sine; partial cos a. Records one one-parent node.
    pub fn sin(self, tape: &mut Tape<T>) -> (r: Variable<T>)
        requires
            old(tape).wf(),
            self.index < old(tape)@.len(),
        ensures
            final(tape).wf(),
            r.index == old(tape)@.len(),
            final(tape)@ == old(tape)@.push(unary_node::<T>(self.index, T::cos_spec(self.value), r.index)),
            r.value == T::sin_spec(self.value),
    {
        let d = self.value.cos();
        let v = self.value.sin();
        let i = tape.push_unary(self.index, d);
        Variable { index: i, value: v }
    }

    /// Cosine; partial -sin a. Records one one-parent node.
    pub fn cos(self, tape: &mut Tape<T>) -> (r: Variable<T>)
        requires
            old(tape).wf(),
            self.index < old(tape)@.len(),
        ensures
            final(tape).wf(),
            r.index == old(tape)@.len(),
            final(tape)@ == old(tape)@.push(unary_node::<T>(self.index, T::neg_spec(T::sin_spec(self.value)), r.index)),
            r.value == T::cos_spec(self.value),
    {
        let d = self.value.sin().neg();
        let v = self.value.cos();
        let i = tape.push_unary(self.index, d);
        Variable { index: i, value: v }
    }

    /// Tangent; partial 1/(cos a * cos a). Records one one-parent node.
    pub fn tan(self, tape: &mut Tape<T>) -> (r: Variable<T>)
        requires
            old(tape).wf(),
            self.index < old(tape)@.len(),
        ensures
            final(tape).wf(),
            r.index == old(tape)@.len(),
            final(tape)@ == old(tape)@.push(unary_node::<T>(self.index, T::recip_spec(T::mul_spec(T::cos_spec(self.value), T::cos_spec(self.value))), r.index)),
            r.value == T::tan_spec(self.value),
    {
        let d = self.value.cos().mul(self.value.cos()).recip();
        let v = self.value.tan();
        let i = tape.push_unary(self.index, d);
        Variable { index: i, value: v }
    }

    /// Arcsine; partial 1/sqrt(1 - a*a). Records one one-parent node.
    pub fn asin(self, tape: &mut Tape<T>) -> (r: Variable<T>)
        requires
            old(tape).wf(),
            self.index < old(tape)@.len(),
        ensures
            final(tape).wf(),
            r.index == old(tape)@.len(),
            final(tape)@ == old(tape)@.push(unary_node::<T>(self.index, T::recip_spec(T::sqrt_spec(T::sub_spec(T::one_spec(), T::mul_spec(self.value, self.value)))), r.index)),
            r.value == T::asin_spec(self.value),
    {
        let d = T::one().sub(self.value.mul(self.value)).sqrt().recip();
        let v = self.value.asin();
        let i = tape.push_unary(self.index, d);
        Variable { index: i, value: v }
    }

    /// Arccosine; partial -1/sqrt(1 - a*a). Records one one-parent node.
    pub fn acos(self, tape: &mut Tape<T>) -> (r: Variable<T>)
        requires
            old(tape).wf(),
            self.index < old(tape)@.len(),
        ensures
            final(tape).wf(),
            r.index == old(tape)@.len(),
            final(tape)@ == old(tape)@.push(unary_node::<T>(self.index, T::neg_spec(T::recip_spec(T::sqrt_spec(T::sub_spec(T::one_spec(), T::mul_spec(self.value, self.value))))), r.index)),
            r.value == T::acos_spec(self.value),
    {
        let d = T::one().sub(self.value.mul(self.value)).sqrt().recip().neg();
        let v = self.value.acos();
        let i = tape.push_unary(self.index, d);
        Variable { index: i, value: v }
    }

    /// Arctangent; partial 1/(1 + a*a). Records one one-parent node.
    pub fn atan(self, tape: &mut Tape<T>) -> (r: Variable<T>)
        requires
            old(tape).wf(),
            self.index < old(tape)@.len(),
        ensures
            final(tape).wf(),
            r.index == old(tape)@.len(),
            final(tape)@ == old(tape)@.push(unary_node::<T>(self.index, T::recip_spec(T::add_spec(T::one_spec(), T::mul_spec(self.value, self.value))), r.index)),
            r.value == T::atan_spec(self.value),
    {
        let d = T::one().add(self.value.mul(self.value)).recip();
        let v = self.value.atan();
        let i = tape.push_unary(self.index, d);
        Variable { index: i, value: v }
    }

    /// Hyperbolic sine; partial cosh a. Records one one-parent node.
    pub fn sinh(self, tape: &mut Tape<T>) -> (r: Variable<T>)
        requires
            old(tape).wf(),
            self.index < old(tape)@.len(),
        ensures
            final(tape).wf(),
            r.index == old(tape)@.len(),
            final(tape)@ == old(tape)@.push(unary_node::<T>(self.index, T::cosh_spec(self.value), r.index)),
            r.value == T::sinh_spec(self.value),
    {
        let d = self.value.cosh();
        let v = self.value.sinh();
        let i = tape.push_unary(self.index, d);
        Variable { index: i, value: v }
    }

    /// Hyperbolic cosine; partial sinh a. Records one one-parent node.
    pub fn cosh(self, tape: &mut Tape<T>) -> (r: Variable<T>)
        requires
            old(tape).wf(),
            self.index < old(tape)@.len(),
        ensures
            final(tape).wf(),
            r.index == old(tape)@.len(),
            final(tape)@ == old(tape)@.push(unary_node::<T>(self.index, T::sinh_spec(self.value), r.index)),
            r.value == T::cosh_spec(self.value),
    {
        let d = self.value.sinh();
        let v = self.value.cosh();
        let i = tape.push_unary(self.index, d);
        Variable { index: i, value: v }
    }

    /// Hyperbolic tangent; partial 1/(cosh a * cosh a). Records one one-parent node.
    pub fn tanh(self, tape: &mut Tape<T>) -> (r: Variable<T>)
        requires
            old(tape).wf(),
            self.index < old(tape)@.len(),
        ensures
            final(tape).wf(),
            r.index == old(tape)@.len(),
            final(tape)@ == old(tape)@.push(unary_node::<T>(self.index, T::recip_spec(T::mul_spec(T::cosh_spec(self.value), T::cosh_spec(self.value))), r.index)),
            r.value == T::tanh_spec(self.value),
    {
        let d = self.value.cosh().mul(self.value.cosh()).recip();
        let v = self.value.tanh();
        let i = tape.push_unary(self.index, d);
        Variable { index: i, value: v }
    }

    /// Inverse hyperbolic sine; partial 1/sqrt(a*a + 1). Records one one-parent node.
    pub fn asinh(self, tape: &mut Tape<T>) -> (r: Variable<T>)
        requires
            old(tape).wf(),
            self.index < old(tape)@.len(),
        ensures
            final(tape).wf(),
            r.index == old(tape)@.len(),
            final(tape)@ == old(tape)@.push(unary_node::<T>(self.index, T::recip_spec(T::sqrt_spec(T::add_spec(T::mul_spec(self.value, self.value), T::one_spec()))), r.index)),
            r.value == T::asinh_spec(self.value),
    {
        let d = self.value.mul(self.value).add(T::one()).sqrt().recip();
        let v = self.value.asinh();
        let i = tape.push_unary(self.index, d);
        Variable { index: i, value: v }
    }

    /// Inverse hyperbolic cosine; partial 1/sqrt(a*a - 1). Records one one-parent node.
    pub fn acosh(self, tape: &mut Tape<T>) -> (r: Variable<T>)
        requires
            old(tape).wf(),
            self.index < old(tape)@.len(),
        ensures
            final(tape).wf(),
            r.index == old(tape)@.len(),
            final(tape)@ == old(tape)@.push(unary_node::<T>(self.index, T::recip_spec(T::sqrt_spec(T::sub_spec(T::mul_spec(self.value, self.value), T::one_spec()))), r.index)),
            r.value == T::acosh_spec(self.value),
    {
        let d = self.value.mul(self.value).sub(T::one()).sqrt().recip();
        let v = self.value.acosh();
        let i = tape.push_unary(self.index, d);
        Variable { index: i, value: v }
    }

    /// Inverse hyperbolic tangent; partial 1/(1 - a*a). Records one one-parent node.
    pub fn atanh(self, tape: &mut Tape<T>) -> (r: Variable<T>)
        requires
            old(tape).wf(),
            self.index < old(tape)@.len(),
        ensures
            final(tape).wf(),
            r.index == old(tape)@.len(),
            final(tape)@ == old(tape)@.push(unary_node::<T>(self.index, T::recip_spec(T::sub_spec(T::one_spec(), T::mul_spec(self.value, self.value))), r.index)),
            r.value == T::atanh_spec(self.value),
    {
        let d = T::one().sub(self.value.mul(self.value)).recip();
        let v = self.value.atanh();
        let i = tape.push_unary(self.index, d);
        Variable { index: i, value: v }
    }

    /// `self ^ n` with a machine-integer exponent; partial n*self^(n-1).
    /// Records one one-parent node.
    pub fn powi(self, tape: &mut Tape<T>, n: i32) -> (r: Variable<T>)
        requires
            old(tape).wf(),
            self.index < old(tape)@.len(),
            n > i32::MIN,
        ensures
            final(tape).wf(),
            r.index == old(tape)@.len(),
            final(tape)@ == old(tape)@.push(
                unary_node::<T>(
                    self.index,
                    T::mul_spec(T::from_i32_spec(n), T::powi_spec(self.value, (n - 1) as i32)),
                    r.index,
                ),
            ),
            r.value == T::powi_spec(self.value, n),
    {
        let d = T::from_i32(n).mul(self.value.powi(n - 1));
        let v = self.value.powi(n);
        let i = tape.push_unary(self.index, d);
        Variable { index: i, value: v }
    }
}

} // verus!
