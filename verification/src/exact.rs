//! An exact machine-integer instance of the scalar algebra.
//!
//! Unsigned 64-bit integers with saturating ring operations: sums and
//! products clamp at `u64::MAX`, differences clamp at zero, and division by
//! zero yields zero. Powers iterate the saturating product. The remaining
//! channels have no exact integer meaning and are constant: negation and the
//! transcendental and root channels return zero, so a subtraction node's
//! second partial and every transcendental partial degenerate to zero here.
//!
//! The instance exists so that the engine and its gradient laws are checked
//! against a concrete algebra; callers wanting approximate real arithmetic
//! implement [`Scalar`](crate::scalar::Scalar) for a number type of their own.

use vstd::prelude::*;

use crate::scalar::Scalar;

verus! {

/// The saturating power: `n`-fold saturating product of `a`, with the empty
/// product equal to one.
pub open spec fn pow_sat(a: u64, n: nat) -> u64
    decreases n,
{
    if n == 0 {
        1u64
    } else {
        <u64 as Scalar>::mul_spec(pow_sat(a, (n - 1) as nat), a)
    }
}

proof fn lemma_mul_le(a: int, b: int, m: int)
    requires
        0 <= a <= m,
        0 <= b <= m,
    ensures
        a * b <= m * m,
{
    assert(a * b <= m * m) by (nonlinear_arith)
        requires
            0 <= a <= m,
            0 <= b <= m,
    ;
}

impl Scalar for u64 {
    open spec fn zero_spec() -> u64 {
        0u64
    }

    open spec fn one_spec() -> u64 {
        1u64
    }

    open spec fn add_spec(a: u64, b: u64) -> u64 {
        if a + b > u64::MAX {
            u64::MAX
        } else {
            (a + b) as u64
        }
    }

    open spec fn sub_spec(a: u64, b: u64) -> u64 {
        if a >= b {
            (a - b) as u64
        } else {
            0u64
        }
    }

    open spec fn mul_spec(a: u64, b: u64) -> u64 {
        if a * b > u64::MAX {
            u64::MAX
        } else {
            (a * b) as u64
        }
    }

    open spec fn div_spec(a: u64, b: u64) -> u64 {
        if b == 0 {
            0u64
        } else {
            (a as int / b as int) as u64
        }
    }

    open spec fn neg_spec(a: u64) -> u64 {
        0u64
    }

    open spec fn recip_spec(a: u64) -> u64 {
        <u64 as Scalar>::div_spec(1u64, a)
    }

    open spec fn abs_spec(a: u64) -> u64 {
        a
    }

    open spec fn sign_spec(a: u64) -> u64 {
        if a == 0 {
            0u64
        } else {
            1u64
        }
    }

    open spec fn sqrt_spec(a: u64) -> u64 {
        0u64
    }

    open spec fn exp_spec(a: u64) -> u64 {
        0u64
    }

    open spec fn ln_spec(a: u64) -> u64 {
        0u64
    }

    open spec fn powi_spec(a: u64, n: i32) -> u64 {
        if n < 0 {
            0u64
        } else {
            pow_sat(a, n as nat)
        }
    }

    open spec fn powf_spec(a: u64, b: u64) -> u64 {
        pow_sat(a, b as nat)
    }

    open spec fn sin_spec(a: u64) -> u64 {
        0u64
    }

    open spec fn cos_spec(a: u64) -> u64 {
        0u64
    }

    open spec fn tan_spec(a: u64) -> u64 {
        0u64
    }

    open spec fn asin_spec(a: u64) -> u64 {
        0u64
    }

    open spec fn acos_spec(a: u64) -> u64 {
        0u64
    }

    open spec fn atan_spec(a: u64) -> u64 {
        0u64
    }

    open spec fn sinh_spec(a: u64) -> u64 {
        0u64
    }

    open spec fn cosh_spec(a: u64) -> u64 {
        0u64
    }

    open spec fn tanh_spec(a: u64) -> u64 {
        0u64
    }

    open spec fn asinh_spec(a: u64) -> u64 {
        0u64
    }

    open spec fn acosh_spec(a: u64) -> u64 {
        0u64
    }

    open spec fn atanh_spec(a: u64) -> u64 {
        0u64
    }

    open spec fn from_i32_spec(n: i32) -> u64 {
        if n < 0 {
            0u64
        } else {
            n as u64
        }
    }

    proof fn law_add_zero(a: u64) {
    }

    proof fn law_mul_zero(a: u64) {
    }

    proof fn law_one_mul(a: u64) {
    }

    fn zero() -> u64 {
        0
    }

    fn one() -> u64 {
        1
    }

    fn add(self, o: u64) -> u64 {
        if self <= u64::MAX - o {
            self + o
        } else {
            u64::MAX
        }
    }

    fn sub(self, o: u64) -> u64 {
        if self >= o {
            self - o
        } else {
            0
        }
    }

    fn mul(self, o: u64) -> u64 {
        proof {
            lemma_mul_le(self as int, o as int, u64::MAX as int);
        }
        let p: u128 = (self as u128) * (o as u128);
        if p > (u64::MAX as u128) {
            u64::MAX
        } else {
            p as u64
        }
    }

    fn div(self, o: u64) -> u64 {
        if o == 0 {
            0
        } else {
            self / o
        }
    }

    fn neg(self) -> u64 {
        0
    }

    fn recip(self) -> u64 {
        if self == 0 {
            0
        } else {
            1 / self
        }
    }

    fn abs(self) -> u64 {
        self
    }

    fn sign(self) -> u64 {
        if self == 0 {
            0
        } else {
            1
        }
    }

    fn sqrt(self) -> u64 {
        0
    }

    fn exp(self) -> u64 {
        0
    }

    fn ln(self) -> u64 {
        0
    }

    fn powi(self, n: i32) -> u64 {
        if n < 0 {
            return 0;
        }
        let un: u32 = n as u32;
        let mut r: u64 = 1;
        let mut i: u32 = 0;
        while i < un
            invariant
                i <= un,
                un == n,
                r == pow_sat(self, i as nat),
            decreases un - i,
        {
            r = r.mul(self);
            i = i + 1;
        }
        r
    }

    fn powf(self, b: u64) -> u64 {
        let mut r: u64 = 1;
        let mut i: u64 = 0;
        while i < b
            invariant
                i <= b,
                r == pow_sat(self, i as nat),
            decreases b - i,
        {
            r = r.mul(self);
            i = i + 1;
        }
        r
    }

    fn sin(self) -> u64 {
        0
    }

    fn cos(self) -> u64 {
        0
    }

    fn tan(self) -> u64 {
        0
    }

    fn asin(self) -> u64 {
        0
    }

    fn acos(self) -> u64 {
        0
    }

    fn atan(self) -> u64 {
        0
    }

    fn sinh(self) -> u64 {
        0
    }

    fn cosh(self) -> u64 {
        0
    }

    fn tanh(self) -> u64 {
        0
    }

    fn asinh(self) -> u64 {
        0
    }

    fn acosh(self) -> u64 {
        0
    }

    fn atanh(self) -> u64 {
        0
    }

    fn from_i32(n: i32) -> u64 {
        if n < 0 {
            0
        } else {
            n as u64
        }
    }
}

} // verus!
