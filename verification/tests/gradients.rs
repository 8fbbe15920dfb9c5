//! Gradient scenarios on an IEEE double instance of the scalar algebra,
//! including finite-difference agreement for the transcendental operators.

use autodiff::Scalar;
use autodiff::Tape;

/// IEEE double precision as a scalar algebra.
#[derive(Clone, Copy, Debug, PartialEq)]
struct R(f64);

impl Scalar for R {
    fn zero_spec() -> R {
        R(0.0)
    }
    fn one_spec() -> R {
        R(1.0)
    }
    fn add_spec(a: R, b: R) -> R {
        R(a.0 + b.0)
    }
    fn sub_spec(a: R, b: R) -> R {
        R(a.0 - b.0)
    }
    fn mul_spec(a: R, b: R) -> R {
        R(a.0 * b.0)
    }
    fn div_spec(a: R, b: R) -> R {
        R(a.0 / b.0)
    }
    fn neg_spec(a: R) -> R {
        R(-a.0)
    }
    fn recip_spec(a: R) -> R {
        R(a.0.recip())
    }
    fn abs_spec(a: R) -> R {
        R(a.0.abs())
    }
    fn sign_spec(a: R) -> R {
        R(a.0.signum())
    }
    fn sqrt_spec(a: R) -> R {
        R(a.0.sqrt())
    }
    fn exp_spec(a: R) -> R {
        R(a.0.exp())
    }
    fn ln_spec(a: R) -> R {
        R(a.0.ln())
    }
    fn powi_spec(a: R, n: i32) -> R {
        R(a.0.powi(n))
    }
    fn powf_spec(a: R, b: R) -> R {
        R(a.0.powf(b.0))
    }
    fn sin_spec(a: R) -> R {
        R(a.0.sin())
    }
    fn cos_spec(a: R) -> R {
        R(a.0.cos())
    }
    fn tan_spec(a: R) -> R {
        R(a.0.tan())
    }
    fn asin_spec(a: R) -> R {
        R(a.0.asin())
    }
    fn acos_spec(a: R) -> R {
        R(a.0.acos())
    }
    fn atan_spec(a: R) -> R {
        R(a.0.atan())
    }
    fn sinh_spec(a: R) -> R {
        R(a.0.sinh())
    }
    fn cosh_spec(a: R) -> R {
        R(a.0.cosh())
    }
    fn tanh_spec(a: R) -> R {
        R(a.0.tanh())
    }
    fn asinh_spec(a: R) -> R {
        R(a.0.asinh())
    }
    fn acosh_spec(a: R) -> R {
        R(a.0.acosh())
    }
    fn atanh_spec(a: R) -> R {
        R(a.0.atanh())
    }
    fn from_i32_spec(n: i32) -> R {
        R(n as f64)
    }
    fn law_add_zero(_a: R) {
    }
    fn law_mul_zero(_a: R) {
    }
    fn law_one_mul(_a: R) {
    }
    fn zero() -> R {
        R(0.0)
    }
    fn one() -> R {
        R(1.0)
    }
    fn add(self, o: R) -> R {
        R(self.0 + o.0)
    }
    fn sub(self, o: R) -> R {
        R(self.0 - o.0)
    }
    fn mul(self, o: R) -> R {
        R(self.0 * o.0)
    }
    fn div(self, o: R) -> R {
        R(self.0 / o.0)
    }
    fn neg(self) -> R {
        R(-self.0)
    }
    fn recip(self) -> R {
        R(self.0.recip())
    }
    fn abs(self) -> R {
        R(self.0.abs())
    }
    fn sign(self) -> R {
        R(self.0.signum())
    }
    fn sqrt(self) -> R {
        R(self.0.sqrt())
    }
    fn exp(self) -> R {
        R(self.0.exp())
    }
    fn ln(self) -> R {
        R(self.0.ln())
    }
    fn powi(self, n: i32) -> R {
        R(self.0.powi(n))
    }
    fn powf(self, b: R) -> R {
        R(self.0.powf(b.0))
    }
    fn sin(self) -> R {
        R(self.0.sin())
    }
    fn cos(self) -> R {
        R(self.0.cos())
    }
    fn tan(self) -> R {
        R(self.0.tan())
    }
    fn asin(self) -> R {
        R(self.0.asin())
    }
    fn acos(self) -> R {
        R(self.0.acos())
    }
    fn atan(self) -> R {
        R(self.0.atan())
    }
    fn sinh(self) -> R {
        R(self.0.sinh())
    }
    fn cosh(self) -> R {
        R(self.0.cosh())
    }
    fn tanh(self) -> R {
        R(self.0.tanh())
    }
    fn asinh(self) -> R {
        R(self.0.asinh())
    }
    fn acosh(self) -> R {
        R(self.0.acosh())
    }
    fn atanh(self) -> R {
        R(self.0.atanh())
    }
    fn from_i32(n: i32) -> R {
        R(n as f64)
    }
}

fn assert_close(a: f64, b: f64, tol: f64) {
    let scale = if b.abs() > 1.0 { b.abs() } else { 1.0 };
    assert!(
        (a - b).abs() <= tol * scale,
        "expected {b}, got {a} (tolerance {tol})"
    );
}

/// Central finite difference with step `h`.
fn central_diff<F: Fn(f64) -> f64>(f: F, x: f64, h: f64) -> f64 {
    (f(x + h) - f(x - h)) / (2.0 * h)
}

#[test]
fn scenario_product_plus_sine() {
    // z = x*y + sin(x) at x = 69, y = 420
    let mut t: Tape<R> = Tape::new();
    let x = t.var(R(69.0));
    let y = t.var(R(420.0));
    let m = x.mul(&mut t, y);
    let s = x.sin(&mut t);
    let z = m.add(&mut t, s);
    assert_close(z.value.0, 69.0 * 420.0 + 69f64.sin(), 1e-12);
    let g = z.accumulate(&t);
    assert_close(g.wrt(&x).0, 420.0 + 69f64.cos(), 1e-12);
    assert_eq!(g.wrt(&y).0, 69.0);
}

#[test]
fn scenario_exp_of_sin_plus_tan() {
    // f = exp(sin(x) + tan(y)) at x = 69, y = 420
    let mut t: Tape<R> = Tape::new();
    let x = t.var(R(69.0));
    let y = t.var(R(420.0));
    let sx = x.sin(&mut t);
    let ty = y.tan(&mut t);
    let s = sx.add(&mut t, ty);
    let f = s.exp(&mut t);
    let g = f.accumulate(&t);
    assert_close(g.wrt(&x).0, 69f64.cos() * f.value.0, 1e-12);
    let sec2 = 1.0 / (420f64.cos() * 420f64.cos());
    assert_close(g.wrt(&y).0, sec2 * f.value.0, 1e-12);
}

#[test]
fn scenario_hyperbolic_ratio_matches_finite_differences() {
    // z = cosh(x*y) / (tanh(x) * sinh(y)) at x = 1, y = 2
    let f = |x: f64, y: f64| (x * y).cosh() / (x.tanh() * y.sinh());
    let mut t: Tape<R> = Tape::new();
    let x = t.var(R(1.0));
    let y = t.var(R(2.0));
    let num = x.mul(&mut t, y).cosh(&mut t);
    let sy = y.sinh(&mut t);
    let den = x.tanh(&mut t).mul(&mut t, sy);
    let z = num.div(&mut t, den);
    let g = z.accumulate(&t);
    let h = 1e-6;
    let dzdx = central_diff(|v| f(v, 2.0), 1.0, h);
    let dzdy = central_diff(|v| f(1.0, v), 2.0, h);
    assert_close(g.wrt(&x).0, dzdx, 1e-6);
    assert_close(g.wrt(&y).0, dzdy, 1e-6);
}

#[test]
fn scenario_power_constant_and_asinh() {
    // f = x^y + sin(1) - asinh(z)/2 at x = 3, y = 2, z = 1; the constant
    // sin(1) never touches the tape and contributes to no gradient.
    let mut t: Tape<R> = Tape::new();
    let x = t.var(R(3.0));
    let y = t.var(R(2.0));
    let z = t.var(R(1.0));
    let p = x.powf(&mut t, y);
    let with_c = p.add_const(&mut t, R(1f64.sin()));
    let half_asinh = z.asinh(&mut t).div_const(&mut t, R(2.0));
    let f = with_c.sub(&mut t, half_asinh);
    assert_close(f.value.0, 9.0 + 1f64.sin() - 1f64.asinh() / 2.0, 1e-12);
    let g = f.accumulate(&t);
    assert_close(g.wrt(&x).0, 6.0, 1e-12);
    assert_close(g.wrt(&y).0, 9.0 * 3f64.ln(), 1e-12);
    assert_close(g.wrt(&z).0, -1.0 / (2.0 * 2f64.sqrt()), 1e-12);
}

#[test]
fn scenario_triple_alias_float() {
    // f = x + x + x at x = 2
    let mut t: Tape<R> = Tape::new();
    let x = t.var(R(2.0));
    let f = x.add(&mut t, x).add(&mut t, x);
    assert_eq!(f.value.0, 6.0);
    let g = f.accumulate(&t);
    assert_eq!(g.wrt(&x).0, 3.0);
}

#[test]
fn scenario_fresh_leaf_accumulates_to_one() {
    let mut t: Tape<R> = Tape::new();
    let x = t.var(R(123.456));
    let g = x.accumulate(&t);
    assert_eq!(g.wrt(&x).0, 1.0);
}

#[test]
fn constant_function_zero_gradient_float() {
    let mut t: Tape<R> = Tape::new();
    let x = t.var(R(5.5));
    let y = t.var(R(-2.25));
    let c = t.var(R(3.125));
    let g = c.accumulate(&t);
    assert_eq!(g.wrt(&x).0, 0.0);
    assert_eq!(g.wrt(&y).0, 0.0);
    assert_eq!(g.wrt(&c).0, 1.0);
}

#[test]
fn linearity_float() {
    let mut t: Tape<R> = Tape::new();
    let x = t.var(R(1.5));
    let y = t.var(R(-0.75));
    let by = y.mul_const(&mut t, R(-4.25));
    let s = x.mul_const(&mut t, R(2.5)).add(&mut t, by);
    let g = s.accumulate(&t);
    assert_eq!(g.wrt(&x).0, 2.5);
    assert_eq!(g.wrt(&y).0, -4.25);
}

#[test]
fn product_rule_float_is_exact() {
    let mut t: Tape<R> = Tape::new();
    let x = t.var(R(1.25));
    let y = t.var(R(-3.5));
    let z = x.mul(&mut t, y);
    let g = z.accumulate(&t);
    assert_eq!(g.wrt(&x).0, -3.5);
    assert_eq!(g.wrt(&y).0, 1.25);
}

#[test]
fn quotient_rule_float_is_exact() {
    let mut t: Tape<R> = Tape::new();
    let x = t.var(R(2.0));
    let y = t.var(R(4.0));
    let q = x.div(&mut t, y);
    assert_eq!(q.value.0, 0.5);
    let g = q.accumulate(&t);
    assert_eq!(g.wrt(&x).0, 1.0 / 4.0);
    assert_eq!(g.wrt(&y).0, -(2.0 / (4.0 * 4.0)));
}

#[test]
fn chain_rule_sine_of_product() {
    // f = sin(x*y): df/dx = cos(x*y)*y, df/dy = cos(x*y)*x
    let mut t: Tape<R> = Tape::new();
    let x = t.var(R(0.8));
    let y = t.var(R(1.3));
    let f = x.mul(&mut t, y).sin(&mut t);
    let g = f.accumulate(&t);
    let c = (0.8f64 * 1.3).cos();
    assert_eq!(g.wrt(&x).0, c * 1.3);
    assert_eq!(g.wrt(&y).0, c * 0.8);
}

#[test]
fn absolute_value_partial_is_sign() {
    let mut t: Tape<R> = Tape::new();
    let x = t.var(R(-3.0));
    let a = x.abs(&mut t);
    assert_eq!(a.value.0, 3.0);
    let g = a.accumulate(&t);
    assert_eq!(g.wrt(&x).0, -1.0);
}

#[test]
fn exact_partials_of_simple_unaries() {
    let mut t: Tape<R> = Tape::new();
    let x = t.var(R(0.7));
    let e = x.exp(&mut t);
    assert_eq!(e.accumulate(&t).wrt(&x).0, e.value.0);

    let y = t.var(R(2.0));
    let l = y.ln(&mut t);
    assert_eq!(l.accumulate(&t).wrt(&y).0, 0.5);

    let z = t.var(R(4.0));
    let r = z.recip(&mut t);
    assert_eq!(r.value.0, 0.25);
    assert_eq!(r.accumulate(&t).wrt(&z).0, -(1.0 / 16.0));

    let w = t.var(R(9.0));
    let s = w.sqrt(&mut t);
    assert_eq!(s.value.0, 3.0);
    assert_eq!(s.accumulate(&t).wrt(&w).0, 1.0 / 6.0);

    let v = t.var(R(1.1));
    let n = v.neg(&mut t);
    assert_eq!(n.value.0, -1.1);
    assert_eq!(n.accumulate(&t).wrt(&v).0, -1.0);
}

#[test]
fn finite_difference_agreement_trig() {
    let cases: Vec<(fn(f64) -> f64, f64)> = vec![
        (|v: f64| v.sin(), 0.5),
        (|v: f64| v.cos(), 0.5),
        (|v: f64| v.tan(), 0.5),
        (|v: f64| v.asin(), 0.3),
        (|v: f64| v.acos(), 0.3),
        (|v: f64| v.atan(), 0.7),
    ];
    for (i, (f, at)) in cases.iter().enumerate() {
        let mut t: Tape<R> = Tape::new();
        let x = t.var(R(*at));
        let out = match i {
            0 => x.sin(&mut t),
            1 => x.cos(&mut t),
            2 => x.tan(&mut t),
            3 => x.asin(&mut t),
            4 => x.acos(&mut t),
            _ => x.atan(&mut t),
        };
        let g = out.accumulate(&t);
        let fd = central_diff(f, *at, 1e-6);
        assert_close(g.wrt(&x).0, fd, 1e-6);
    }
}

#[test]
fn finite_difference_agreement_hyperbolic() {
    let cases: Vec<(fn(f64) -> f64, f64)> = vec![
        (|v: f64| v.sinh(), 0.6),
        (|v: f64| v.cosh(), 0.6),
        (|v: f64| v.tanh(), 0.6),
        (|v: f64| v.asinh(), 0.8),
        (|v: f64| v.acosh(), 1.5),
        (|v: f64| v.atanh(), 0.4),
    ];
    for (i, (f, at)) in cases.iter().enumerate() {
        let mut t: Tape<R> = Tape::new();
        let x = t.var(R(*at));
        let out = match i {
            0 => x.sinh(&mut t),
            1 => x.cosh(&mut t),
            2 => x.tanh(&mut t),
            3 => x.asinh(&mut t),
            4 => x.acosh(&mut t),
            _ => x.atanh(&mut t),
        };
        let g = out.accumulate(&t);
        let fd = central_diff(f, *at, 1e-6);
        assert_close(g.wrt(&x).0, fd, 1e-6);
    }
}

#[test]
fn finite_difference_agreement_powers() {
    let mut t: Tape<R> = Tape::new();
    let x = t.var(R(2.0));
    let p = x.powf_const(&mut t, R(3.5));
    let g = p.accumulate(&t);
    let fd = central_diff(|v: f64| v.powf(3.5), 2.0, 1e-6);
    assert_close(g.wrt(&x).0, fd, 1e-6);

    let y = t.var(R(1.7));
    let q = y.powi(&mut t, 4);
    let gq = q.accumulate(&t);
    let fdq = central_diff(|v: f64| v.powi(4), 1.7, 1e-6);
    assert_close(gq.wrt(&y).0, fdq, 1e-6);
}

#[test]
fn constant_operand_forms() {
    let mut t: Tape<R> = Tape::new();
    let x = t.var(R(4.0));

    let a = x.add_const(&mut t, R(1.5));
    assert_eq!(a.value.0, 5.5);
    assert_eq!(a.accumulate(&t).wrt(&x).0, 1.0);

    let b = x.sub_const(&mut t, R(1.5));
    assert_eq!(b.value.0, 2.5);
    assert_eq!(b.accumulate(&t).wrt(&x).0, 1.0);

    let c = x.const_sub(&mut t, R(10.0));
    assert_eq!(c.value.0, 6.0);
    assert_eq!(c.accumulate(&t).wrt(&x).0, -1.0);

    let d = x.div_const(&mut t, R(8.0));
    assert_eq!(d.value.0, 0.5);
    assert_eq!(d.accumulate(&t).wrt(&x).0, 0.125);

    let e = x.const_div(&mut t, R(3.0));
    assert_eq!(e.value.0, 0.75);
    assert_eq!(e.accumulate(&t).wrt(&x).0, -(3.0 / 16.0));
}

#[test]
fn subtraction_partials() {
    let mut t: Tape<R> = Tape::new();
    let x = t.var(R(7.0));
    let y = t.var(R(2.0));
    let d = x.sub(&mut t, y);
    assert_eq!(d.value.0, 5.0);
    let g = d.accumulate(&t);
    assert_eq!(g.wrt(&x).0, 1.0);
    assert_eq!(g.wrt(&y).0, -1.0);
}

#[test]
fn division_by_zero_propagates_nonfinite() {
    let mut t: Tape<R> = Tape::new();
    let x = t.var(R(1.0));
    let y = t.var(R(0.0));
    let q = x.div(&mut t, y);
    assert!(q.value.0.is_infinite());
    let g = q.accumulate(&t);
    assert!(g.wrt(&y).0.is_infinite() || g.wrt(&y).0.is_nan());
}

#[test]
fn gradient_of_barrier_style_expression_matches_finite_differences() {
    // A deeper composite in the shape consumers build: sqrt, ln, exp and a
    // ratio mixed together.
    let f = |s: f64, v: f64| ((s / 100.0).ln() / v + 0.5 * v).exp() / (s.sqrt() * v);
    let mut t: Tape<R> = Tape::new();
    let s = t.var(R(110.0));
    let v = t.var(R(0.2));
    let ratio = s.div_const(&mut t, R(100.0)).ln(&mut t).div(&mut t, v);
    let half_v = v.mul_const(&mut t, R(0.5));
    let inner = ratio.add(&mut t, half_v);
    let root_s = s.sqrt(&mut t);
    let den = root_s.mul(&mut t, v);
    let z = inner.exp(&mut t).div(&mut t, den);
    let g = z.accumulate(&t);
    let h = 1e-6;
    assert_close(g.wrt(&s).0, central_diff(|u| f(u, 0.2), 110.0, h), 1e-5);
    assert_close(g.wrt(&v).0, central_diff(|u| f(110.0, u), 0.2, h), 1e-5);
}

#[test]
fn proved_product_consumer_matches_float() {
    let (dx, dy) = autodiff::laws::gradient_of_product(R(1.5), R(-2.5));
    assert_eq!(dx.0, -2.5);
    assert_eq!(dy.0, 1.5);
}

#[test]
fn proved_duplicate_sum_consumer_matches_float() {
    let d = autodiff::laws::gradient_of_duplicate_sum(R(7.25));
    assert_eq!(d.0, 2.0);
}
