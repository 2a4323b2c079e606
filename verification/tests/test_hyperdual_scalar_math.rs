use optimization::fp::Fp;
use optimization::number_system::HyperDualScalar as HDual;

#[allow(dead_code)]
fn fp(v: f64) -> Fp {
    Fp::from_bits(v.to_bits())
}

#[allow(dead_code)]
fn val(a: Fp) -> f64 {
    f64::from_bits(a.bits)
}

#[allow(dead_code)]
fn close(a: Fp, b: f64) -> bool {
    (val(a) - b).abs() <= f64::EPSILON
}

#[allow(dead_code)]
fn mat0() -> Vec<Vec<Fp>> {
    vec![vec![fp(0.0); 3]; 3]
}

#[allow(dead_code)]
fn fsum(m: &Vec<Vec<Fp>>) -> f64 {
    let mut s = 0.0;
    for row in m {
        for e in row {
            s += val(*e);
        }
    }
    s
}

#[test]
fn test_hyperdual_scalar_math_test_sin() {
    let x = HDual { re: fp(2.0), e1: fp(3.0), e2: fp(3.0), e1e2: fp(2.0) };
    let test_dual = x.sin();
    let re = 2.0_f64.sin();
    let e1 = 3.0_f64 * 2.0_f64.cos();
    let e1e2 = -2.0_f64.sin()*9.0 + 2.0_f64.cos()*2.0;

    assert!(close(test_dual.re, re));
    assert!(close(test_dual.e1, e1));
    assert!(close(test_dual.e2, e1));
    assert!(close(test_dual.e1e2, e1e2));
}

#[test]
fn test_hyperdual_scalar_math_test_cos() {
    let x = HDual { re: fp(2.0), e1: fp(3.0), e2: fp(3.0), e1e2: fp(2.0) };
    let test_dual = x.cos();
    let re = 2.0_f64.cos();
    let e1 = -3.0_f64 * 2.0_f64.sin();
    let e1e2 = -2.0_f64.cos()*9.0 - 2.0_f64.sin()*2.0;

    assert!(close(test_dual.re, re));
    assert!(close(test_dual.e1, e1));
    assert!(close(test_dual.e2, e1));
    assert!(close(test_dual.e1e2, e1e2));
}

#[test]
fn test_hyperdual_scalar_math_test_powi() {
    let x = HDual { re: fp(2.0), e1: fp(3.0), e2: fp(3.0), e1e2: fp(2.0) };
    let test_dual = x.powi(3);
    let re = 2.0_f64.powi(3);
    let e1 = 3.0_f64 * 2.0_f64.powi(2) * 3.0_f64;
    let e1e2 = 6.0_f64*2.0_f64*3.0_f64*3.0_f64 + 3.0_f64*2.0_f64.powi(2)*2.0_f64;

    assert!(close(test_dual.re, re));
    assert!(close(test_dual.e1, e1));
    assert!(close(test_dual.e2, e1));
    assert!(close(test_dual.e1e2, e1e2));
}

