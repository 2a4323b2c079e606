use optimization::fp::Fp;
use optimization::number_system::HyperDualScalar as HDual;

#[allow(dead_code)]
fn fp(v: f64) -> Fp {
    Fp::from_bits(v.to_bits())
}

#[allow(dead_code)]
fn val(a: Fp) -> f64 {
    f64::from_bits(a.bits)
}

#[allow(dead_code)]
fn close(a: Fp, b: f64) -> bool {
    (val(a) - b).abs() <= f64::EPSILON
}

#[allow(dead_code)]
fn mat0() -> Vec<Vec<Fp>> {
    vec![vec![fp(0.0); 3]; 3]
}

#[allow(dead_code)]
fn fsum(m: &Vec<Vec<Fp>>) -> f64 {
    let mut s = 0.0;
    for row in m {
        for e in row {
            s += val(*e);
        }
    }
    s
}

#[test]
fn test_hyperdual_scalar_new_values() {
    let hdual = HDual::new();

    assert!(close(hdual.re, 0.0));
    assert!(close(hdual.e1, 0.0));
    assert!(close(hdual.e2, 0.0));
    assert!(close(hdual.e1e2, 0.0));
}

#[test]
fn test_hyperdual_scalar_hdual_add_hdual() {
    let hdual1 = HDual { re: fp(1.0), e1: fp(2.0), e2: fp(2.0), e1e2: fp(3.0) };
    let hdual2 = HDual { re: fp(3.0), e1: fp(4.0), e2: fp(4.0), e1e2: fp(5.0) };
    let hdual3 = hdual1.add(hdual2);

    assert!(close(hdual3.re, 4.0));
    assert!(close(hdual3.e1, 6.0));
    assert!(close(hdual3.e2, 6.0));
    assert!(close(hdual3.e1e2, 8.0));
}

#[test]
fn test_hyperdual_scalar_borrow_hdual_add_borrow_hdual() {
    let hdual1 = HDual { re: fp(1.0), e1: fp(2.0), e2: fp(2.0), e1e2: fp(3.0) };
    let hdual2 = HDual { re: fp(3.0), e1: fp(4.0), e2: fp(4.0), e1e2: fp(5.0) };
    let hdual3 = hdual1.add(hdual2);

    assert!(close(hdual3.re, 4.0));
    assert!(close(hdual3.e1, 6.0));
    assert!(close(hdual3.e2, 6.0));
    assert!(close(hdual3.e1e2, 8.0));
}

#[test]
fn test_hyperdual_scalar_hdual_add_borrow_hdual() {
    let hdual1 = HDual { re: fp(1.0), e1: fp(2.0), e2: fp(2.0), e1e2: fp(3.0) };
    let hdual2 = HDual { re: fp(3.0), e1: fp(4.0), e2: fp(4.0), e1e2: fp(5.0) };
    let hdual3 = hdual1.add(hdual2);

    assert!(close(hdual3.re, 4.0));
    assert!(close(hdual3.e1, 6.0));
    assert!(close(hdual3.e2, 6.0));
    assert!(close(hdual3.e1e2, 8.0));
}

#[test]
fn test_hyperdual_scalar_borrow_hdual_add_hdual() {
    let hdual1 = HDual { re: fp(1.0), e1: fp(2.0), e2: fp(2.0), e1e2: fp(3.0) };
    let hdual2 = HDual { re: fp(3.0), e1: fp(4.0), e2: fp(4.0), e1e2: fp(5.0) };
    let hdual3 = hdual1.add(hdual2);

    assert!(close(hdual3.re, 4.0));
    assert!(close(hdual3.e1, 6.0));
    assert!(close(hdual3.e2, 6.0));
    assert!(close(hdual3.e1e2, 8.0));
}

#[test]
fn test_hyperdual_scalar_hdual_add_f64() {
    let hdual1 = HDual { re: fp(1.0), e1: fp(2.0), e2: fp(2.0), e1e2: fp(3.0) };
    let hdual2 = hdual1.add_real(fp(2.0));

    assert!(close(hdual2.re, 3.0));
    assert!(close(hdual2.e1, 2.0));
    assert!(close(hdual2.e2, 2.0));
    assert!(close(hdual2.e1e2, 3.0));
}

#[test]
fn test_hyperdual_scalar_borrow_hdual_add_f64() {
    let hdual1 = HDual { re: fp(1.0), e1: fp(2.0), e2: fp(2.0), e1e2: fp(3.0) };
    let hdual2 = hdual1.add_real(fp(2.0));

    assert!(close(hdual2.re, 3.0));
    assert!(close(hdual2.e1, 2.0));
    assert!(close(hdual2.e2, 2.0));
    assert!(close(hdual2.e1e2, 3.0));
}

#[test]
fn test_hyperdual_scalar_f64_add_hdual() {
    let hdual1 = HDual { re: fp(1.0), e1: fp(2.0), e2: fp(2.0), e1e2: fp(3.0) };
    let hdual2 = hdual1.add_real(fp(2.0));

    assert!(close(hdual2.re, 3.0));
    assert!(close(hdual2.e1, 2.0));
    assert!(close(hdual2.e2, 2.0));
    assert!(close(hdual2.e1e2, 3.0));
}

#[test]
fn test_hyperdual_scalar_f64_add_borrow_hdual() {
    let hdual1 = HDual { re: fp(1.0), e1: fp(2.0), e2: fp(2.0), e1e2: fp(3.0) };
    let hdual2 = hdual1.add_real(fp(2.0));

    assert!(close(hdual2.re, 3.0));
    assert!(close(hdual2.e1, 2.0));
    assert!(close(hdual2.e2, 2.0));
    assert!(close(hdual2.e1e2, 3.0));
}

#[test]
fn test_hyperdual_scalar_hdual_sub_hdual() {
    let hdual1 = HDual { re: fp(1.0), e1: fp(2.0), e2: fp(2.0), e1e2: fp(3.0) };
    let hdual2 = HDual { re: fp(3.0), e1: fp(4.0), e2: fp(4.0), e1e2: fp(5.0) };
    let hdual3 = hdual1.sub(hdual2);

    assert!(close(hdual3.re, -2.0));
    assert!(close(hdual3.e1, -2.0));
    assert!(close(hdual3.e2, -2.0));
    assert!(close(hdual3.e1e2, -2.0));
}

#[test]
fn test_hyperdual_scalar_borrow_hdual_sub_borrow_hdual() {
    let hdual1 = HDual { re: fp(1.0), e1: fp(2.0), e2: fp(2.0), e1e2: fp(3.0) };
    let hdual2 = HDual { re: fp(3.0), e1: fp(4.0), e2: fp(4.0), e1e2: fp(5.0) };
    let hdual3 = hdual1.sub(hdual2);

    assert!(close(hdual3.re, -2.0));
    assert!(close(hdual3.e1, -2.0));
    assert!(close(hdual3.e2, -2.0));
    assert!(close(hdual3.e1e2, -2.0));
}

#[test]
fn test_hyperdual_scalar_hdual_sub_borrow_hdual() {
    let hdual1 = HDual { re: fp(1.0), e1: fp(2.0), e2: fp(2.0), e1e2: fp(3.0) };
    let hdual2 = HDual { re: fp(3.0), e1: fp(4.0), e2: fp(4.0), e1e2: fp(5.0) };
    let hdual3 = hdual1.sub(hdual2);

    assert!(close(hdual3.re, -2.0));
    assert!(close(hdual3.e1, -2.0));
    assert!(close(hdual3.e2, -2.0));
    assert!(close(hdual3.e1e2, -2.0));
}

#[test]
fn test_hyperdual_scalar_borrow_hdual_sub_hdual() {
    let hdual1 = HDual { re: fp(1.0), e1: fp(2.0), e2: fp(2.0), e1e2: fp(3.0) };
    let hdual2 = HDual { re: fp(3.0), e1: fp(4.0), e2: fp(4.0), e1e2: fp(5.0) };
    let hdual3 = hdual1.sub(hdual2);

    assert!(close(hdual3.re, -2.0));
    assert!(close(hdual3.e1, -2.0));
    assert!(close(hdual3.e2, -2.0));
    assert!(close(hdual3.e1e2, -2.0));
}

#[test]
fn test_hyperdual_scalar_hdual_sub_f64() {
    let hdual1 = HDual { re: fp(1.0), e1: fp(2.0), e2: fp(2.0), e1e2: fp(3.0) };
    let hdual2 = hdual1.sub_real(fp(2.0));

    assert!(close(hdual2.re, -1.0));
    assert!(close(hdual2.e1, 2.0));
    assert!(close(hdual2.e2, 2.0));
    assert!(close(hdual2.e1e2, 3.0));
}

#[test]
fn test_hyperdual_scalar_borrow_hdual_sub_f64() {
    let hdual1 = HDual { re: fp(1.0), e1: fp(2.0), e2: fp(2.0), e1e2: fp(3.0) };
    let hdual2 = hdual1.sub_real(fp(2.0));

    assert!(close(hdual2.re, -1.0));
    assert!(close(hdual2.e1, 2.0));
    assert!(close(hdual2.e2, 2.0));
    assert!(close(hdual2.e1e2, 3.0));
}

#[test]
fn f64_sub_hdual() {
    let hdual1 = HDual { re: fp(1.0), e1: fp(2.0), e2: fp(2.0), e1e2: fp(3.0) };
    let hdual2 = HDual::real_sub(fp(2.0), hdual1);

    assert!(close(hdual2.re, 1.0));
    assert!(close(hdual2.e1, -2.0));
    assert!(close(hdual2.e2, -2.0));
    assert!(close(hdual2.e1e2, -3.0));
}

#[test]
fn f64_sub_borrow_hdual() {
    let hdual1 = HDual { re: fp(1.0), e1: fp(2.0), e2: fp(2.0), e1e2: fp(3.0) };
    let hdual2 = HDual::real_sub(fp(2.0), hdual1);

    assert!(close(hdual2.re, 1.0));
    assert!(close(hdual2.e1, -2.0));
    assert!(close(hdual2.e2, -2.0));
    assert!(close(hdual2.e1e2, -3.0));
}

#[test]
fn test_hyperdual_scalar_neg_hdual() {
    let hdual1 = HDual { re: fp(1.0), e1: fp(2.0), e2: fp(2.0), e1e2: fp(3.0) };
    let hdual2 = hdual1.neg();

    assert!(close(hdual2.re, -1.0));
    assert!(close(hdual2.e1, -2.0));
    assert!(close(hdual2.e2, -2.0));
    assert!(close(hdual2.e1e2, -3.0));
}

#[test]
fn test_hyperdual_scalar_neg_borrow_hdual() {
    let hdual1 = HDual { re: fp(1.0), e1: fp(2.0), e2: fp(2.0), e1e2: fp(3.0) };
    let hdual2 = hdual1.neg();

    assert!(close(hdual2.re, -1.0));
    assert!(close(hdual2.e1, -2.0));
    assert!(close(hdual2.e2, -2.0));
    assert!(close(hdual2.e1e2, -3.0));
}

#[test]
fn test_hyperdual_scalar_hdual_mul_hdual() {
    let hdual1 = HDual { re: fp(1.0), e1: fp(2.0), e2: fp(2.0), e1e2: fp(3.0) };
    let hdual2 = HDual { re: fp(3.0), e1: fp(4.0), e2: fp(4.0), e1e2: fp(5.0) };
    let hdual3 = hdual1.mul(hdual2);

    assert!(close(hdual3.re, 3.0));
    assert!(close(hdual3.e1, 10.0));
    assert!(close(hdual3.e2, 10.0));
    assert!(close(hdual3.e1e2, 30.0));
}

#[test]
fn test_hyperdual_scalar_borrow_hdual_mul_borrow_hdual() {
    let hdual1 = HDual { re: fp(1.0), e1: fp(2.0), e2: fp(2.0), e1e2: fp(3.0) };
    let hdual2 = HDual { re: fp(3.0), e1: fp(4.0), e2: fp(4.0), e1e2: fp(5.0) };
    let hdual3 = hdual1.mul(hdual2);

    assert!(close(hdual3.re, 3.0));
    assert!(close(hdual3.e1, 10.0));
    assert!(close(hdual3.e2, 10.0));
    assert!(close(hdual3.e1e2, 30.0));
}

#[test]
fn test_hyperdual_scalar_hdual_mul_borrow_hdual() {
    let hdual1 = HDual { re: fp(1.0), e1: fp(2.0), e2: fp(2.0), e1e2: fp(3.0) };
    let hdual2 = HDual { re: fp(3.0), e1: fp(4.0), e2: fp(4.0), e1e2: fp(5.0) };
    let hdual3 = hdual1.mul(hdual2);

    assert!(close(hdual3.re, 3.0));
    assert!(close(hdual3.e1, 10.0));
    assert!(close(hdual3.e2, 10.0));
    assert!(close(hdual3.e1e2, 30.0));
}

#[test]
fn test_hyperdual_scalar_borrow_hdual_mul_hdual() {
    let hdual1 = HDual { re: fp(1.0), e1: fp(2.0), e2: fp(2.0), e1e2: fp(3.0) };
    let hdual2 = HDual { re: fp(3.0), e1: fp(4.0), e2: fp(4.0), e1e2: fp(5.0) };
    let hdual3 = hdual1.mul(hdual2);

    assert!(close(hdual3.re, 3.0));
    assert!(close(hdual3.e1, 10.0));
    assert!(close(hdual3.e2, 10.0));
    assert!(close(hdual3.e1e2, 30.0));
}

#[test]
fn test_hyperdual_scalar_hdual_mul_f64() {
    let hdual1 = HDual { re: fp(1.0), e1: fp(2.0), e2: fp(2.0), e1e2: fp(3.0) };
    let hdual2 = hdual1.mul_real(fp(2.0));

    assert!(close(hdual2.re, 2.0));
    assert!(close(hdual2.e1, 4.0));
    assert!(close(hdual2.e2, 4.0));
    assert!(close(hdual2.e1e2, 6.0));
}

#[test]
fn test_hyperdual_scalar_borrow_hdual_mul_f64() {
    let hdual1 = HDual { re: fp(1.0), e1: fp(2.0), e2: fp(2.0), e1e2: fp(3.0) };
    let hdual2 = hdual1.mul_real(fp(2.0));

    assert!(close(hdual2.re, 2.0));
    assert!(close(hdual2.e1, 4.0));
    assert!(close(hdual2.e2, 4.0));
    assert!(close(hdual2.e1e2, 6.0));
}

#[test]
fn test_hyperdual_scalar_f64_mul_hdual() {
    let hdual1 = HDual { re: fp(1.0), e1: fp(2.0), e2: fp(2.0), e1e2: fp(3.0) };
    let hdual2 = hdual1.mul_real(fp(2.0));

    assert!(close(hdual2.re, 2.0));
    assert!(close(hdual2.e1, 4.0));
    assert!(close(hdual2.e2, 4.0));
    assert!(close(hdual2.e1e2, 6.0));
}

#[test]
fn test_hyperdual_scalar_f64_mul_borrow_hdual() {
    let hdual1 = HDual { re: fp(1.0), e1: fp(2.0), e2: fp(2.0), e1e2: fp(3.0) };
    let hdual2 = hdual1.mul_real(fp(2.0));

    assert!(close(hdual2.re, 2.0));
    assert!(close(hdual2.e1, 4.0));
    assert!(close(hdual2.e2, 4.0));
    assert!(close(hdual2.e1e2, 6.0));
}

#[test]
fn test_hyperdual_scalar_hdual_div_hdual() {
    let hdual1 = HDual { re: fp(2.0), e1: fp(2.0), e2: fp(2.0), e1e2: fp(4.0) };
    let hdual2 = HDual { re: fp(4.0), e1: fp(3.0), e2: fp(3.0), e1e2: fp(5.0) };
    let hdual3 = hdual1.div(hdual2);

    assert!(close(hdual3.re, 0.5));
    assert!(close(hdual3.e1, 0.125));
    assert!(close(hdual3.e2, 0.125));
    assert!(close(hdual3.e1e2, 0.1875));
}

#[test]
fn test_hyperdual_scalar_borrow_hdual_div_borrow_hdual() {
    let hdual1 = HDual { re: fp(2.0), e1: fp(2.0), e2: fp(2.0), e1e2: fp(4.0) };
    let hdual2 = HDual { re: fp(4.0), e1: fp(3.0), e2: fp(3.0), e1e2: fp(5.0) };
    let hdual3 = hdual1.div(hdual2);

    assert!(close(hdual3.re, 0.5));
    assert!(close(hdual3.e1, 0.125));
    assert!(close(hdual3.e2, 0.125));
    assert!(close(hdual3.e1e2, 0.1875));
}

#[test]
fn test_hyperdual_scalar_hdual_div_borrow_hdual() {
    let hdual1 = HDual { re: fp(2.0), e1: fp(2.0), e2: fp(2.0), e1e2: fp(4.0) };
    let hdual2 = HDual { re: fp(4.0), e1: fp(3.0), e2: fp(3.0), e1e2: fp(5.0) };
    let hdual3 = hdual1.div(hdual2);

    assert!(close(hdual3.re, 0.5));
    assert!(close(hdual3.e1, 0.125));
    assert!(close(hdual3.e2, 0.125));
    assert!(close(hdual3.e1e2, 0.1875));
}

#[test]
fn test_hyperdual_scalar_borrow_hdual_div_hdual() {
    let hdual1 = HDual { re: fp(2.0), e1: fp(2.0), e2: fp(2.0), e1e2: fp(4.0) };
    let hdual2 = HDual { re: fp(4.0), e1: fp(3.0), e2: fp(3.0), e1e2: fp(5.0) };
    let hdual3 = hdual1.div(hdual2);

    assert!(close(hdual3.re, 0.5));
    assert!(close(hdual3.e1, 0.125));
    assert!(close(hdual3.e2, 0.125));
    assert!(close(hdual3.e1e2, 0.1875));
}

#[test]
fn test_hyperdual_scalar_hdual_div_f64() {
    let hdual1 = HDual { re: fp(2.0), e1: fp(2.0), e2: fp(2.0), e1e2: fp(4.0) };
    let hdual2 = hdual1.div_real(fp(2.0));

    assert!(close(hdual2.re, 1.0));
    assert!(close(hdual2.e1, 1.0));
    assert!(close(hdual2.e2, 1.0));
    assert!(close(hdual2.e1e2, 2.0));
}

#[test]
fn test_hyperdual_scalar_borrow_hdual_div_f64() {
    let hdual1 = HDual { re: fp(2.0), e1: fp(2.0), e2: fp(2.0), e1e2: fp(4.0) };
    let hdual2 = hdual1.div_real(fp(2.0));

    assert!(close(hdual2.re, 1.0));
    assert!(close(hdual2.e1, 1.0));
    assert!(close(hdual2.e2, 1.0));
    assert!(close(hdual2.e1e2, 2.0));
}

#[test]
fn test_hyperdual_scalar_f64_div_hdual() {
    let hdual1 = HDual { re: fp(2.0), e1: fp(2.0), e2: fp(2.0), e1e2: fp(4.0) };
    let hdual2 = HDual::real_div(fp(2.0), hdual1);

    assert!(close(hdual2.re, 1.0));
    assert!(close(hdual2.e1, -1.0));
    assert!(close(hdual2.e2, -1.0));
    assert!(close(hdual2.e1e2, 0.0));
}

#[test]
fn test_hyperdual_scalar_f64_div_borrow_hdual() {
    let hdual1 = HDual { re: fp(2.0), e1: fp(2.0), e2: fp(2.0), e1e2: fp(4.0) };
    let hdual2 = HDual::real_div(fp(2.0), hdual1);

    assert!(close(hdual2.re, 1.0));
    assert!(close(hdual2.e1, -1.0));
    assert!(close(hdual2.e2, -1.0));
    assert!(close(hdual2.e1e2, 0.0));
}

