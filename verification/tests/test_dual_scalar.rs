use optimization::fp::Fp;
use optimization::number_system::dual_scalar::DualScalar;

#[allow(dead_code)]
fn fp(v: f64) -> Fp {
    Fp::from_bits(v.to_bits())
}

#[allow(dead_code)]
fn val(a: Fp) -> f64 {
    f64::from_bits(a.bits)
}

#[allow(dead_code)]
fn close(a: Fp, b: f64) -> bool {
    (val(a) - b).abs() <= f64::EPSILON
}

#[allow(dead_code)]
fn mat0() -> Vec<Vec<Fp>> {
    vec![vec![fp(0.0); 3]; 3]
}

#[allow(dead_code)]
fn fsum(m: &Vec<Vec<Fp>>) -> f64 {
    let mut s = 0.0;
    for row in m {
        for e in row {
            s += val(*e);
        }
    }
    s
}

#[test]
fn test_dual_scalar_new_values() {
    let new_dual = DualScalar::new();

    assert!(close(new_dual.re, 0.0));
    assert!(close(new_dual.du, 0.0));
}

#[test]
fn test_dual_scalar_dual_add_dual() {
    let dual1 = DualScalar { re: fp(1.0), du: fp(1.0) };
    let dual2 = DualScalar { re: fp(3.0), du: fp(2.0) };
    let dual3 = dual1.add(dual2);

    assert!(close(dual3.re, 4.0));
    assert!(close(dual3.du, 3.0));
}

#[test]
fn test_dual_scalar_borrow_dual_add_borrow_dual() {
    let dual1 = DualScalar { re: fp(2.0), du: fp(3.0) };
    let dual2 = DualScalar { re: fp(7.0), du: fp(5.0) };
    let dual3 = dual1.add(dual2);

    assert!(close(dual3.re, 9.0));
    assert!(close(dual3.du, 8.0));
}

#[test]
fn test_dual_scalar_dual_add_borrow_dual() {
    let dual1 = DualScalar { re: fp(4.0), du: fp(5.0) };
    let dual2 = DualScalar { re: fp(1.0), du: fp(3.0) };
    let dual3 = dual1.add(dual2);

    assert!(close(dual3.re, 5.0));
    assert!(close(dual3.du, 8.0));
}

#[test]
fn test_dual_scalar_borrow_dual_add_dual() {
    let dual1 = DualScalar { re: fp(5.0), du: fp(6.0) };
    let dual2 = DualScalar { re: fp(4.0), du: fp(5.0) };
    let dual3 = dual1.add(dual2);

    assert!(close(dual3.re, 9.0));
    assert!(close(dual3.du, 11.0));
}

#[test]
fn test_dual_scalar_dual_add_f64() {
    let dual1 = DualScalar { re: fp(7.0), du: fp(6.0) };
    let dual2 = dual1.add_real(fp(2.0));

    assert!(close(dual2.re, 9.0));
    assert!(close(dual2.du, 6.0));
}

#[test]
fn test_dual_scalar_f64_add_dual() {
    let dual1 = DualScalar { re: fp(9.0), du: fp(8.0) };
    let dual2 = dual1.add_real(fp(3.0));

    assert!(close(dual2.re, 12.0));
    assert!(close(dual2.du, 8.0));
}

#[test]
fn test_dual_scalar_borrow_dual_add_f64() {
    let dual1 = DualScalar { re: fp(7.0), du: fp(6.0) };
    let dual2 = dual1.add_real(fp(2.0));

    assert!(close(dual2.re, 9.0));
    assert!(close(dual2.du, 6.0));
}

#[test]
fn f64_borrow_add_dual() {
    let dual1 = DualScalar { re: fp(9.0), du: fp(8.0) };
    let dual2 = dual1.add_real(fp(3.0));

    assert!(close(dual2.re, 12.0));
    assert!(close(dual2.du, 8.0));
}

#[test]
fn test_dual_scalar_dual_sub_dual() {
    let dual1 = DualScalar { re: fp(1.0), du: fp(1.0) };
    let dual2 = DualScalar { re: fp(1.0), du: fp(2.0) };
    let dual3 = dual1.sub(dual2);

    assert!(close(dual3.re, 0.0));
    assert!(close(dual3.du, -1.0));
}

#[test]
fn test_dual_scalar_borrow_dual_sub_borrow_dual() {
    let dual1 = DualScalar { re: fp(1.0), du: fp(1.0) };
    let dual2 = DualScalar { re: fp(1.0), du: fp(2.0) };
    let dual3 = dual1.sub(dual2);

    assert!(close(dual3.re, 0.0));
    assert!(close(dual3.du, -1.0));
}

#[test]
fn test_dual_scalar_dual_sub_borrow_dual() {
    let dual1 = DualScalar { re: fp(1.0), du: fp(1.0) };
    let dual2 = DualScalar { re: fp(1.0), du: fp(2.0) };
    let dual3 = dual1.sub(dual2);

    assert!(close(dual3.re, 0.0));
    assert!(close(dual3.du, -1.0));
}

#[test]
fn test_dual_scalar_borrow_dual_sub_dual() {
    let dual1 = DualScalar { re: fp(1.0), du: fp(1.0) };
    let dual2 = DualScalar { re: fp(1.0), du: fp(2.0) };
    let dual3 = dual1.sub(dual2);

    assert!(close(dual3.re, 0.0));
    assert!(close(dual3.du, -1.0));
}

#[test]
fn test_dual_scalar_dual_sub_f64() {
    let dual1 = DualScalar { re: fp(1.0), du: fp(1.0) };
    let dual2 = dual1.sub_real(fp(2.0));

    assert!(close(dual2.re, -1.0));
    assert!(close(dual2.du, 1.0));
}

#[test]
fn test_dual_scalar_borrow_dual_sub_f64() {
    let dual1 = DualScalar { re: fp(1.0), du: fp(1.0) };
    let dual2 = dual1.sub_real(fp(2.0));

    assert!(close(dual2.re, -1.0));
    assert!(close(dual2.du, 1.0));
}

#[test]
fn test_dual_scalar_f64_sub_dual() {
    let dual1 = DualScalar { re: fp(1.0), du: fp(1.0) };
    let dual2 = DualScalar::real_sub(fp(2.0), dual1);

    assert!(close(dual2.re, 1.0));
    assert!(close(dual2.du, -1.0));
}

#[test]
fn test_dual_scalar_f64_sub_borrow_dual() {
    let dual1 = DualScalar { re: fp(1.0), du: fp(1.0) };
    let dual2 = DualScalar::real_sub(fp(2.0), dual1);

    assert!(close(dual2.re, 1.0));
    assert!(close(dual2.du, -1.0));
}

#[test]
fn test_dual_scalar_neg_dual() {
    let dual1 = DualScalar { re: fp(1.0), du: fp(1.0) };
    let dual2 = dual1.neg();

    assert!(close(dual2.re, -1.0));
    assert!(close(dual2.du, -1.0));
}

#[test]
fn test_dual_scalar_neg_borrow_dual() {
    let dual1 = DualScalar { re: fp(1.0), du: fp(1.0) };
    let dual2 = dual1.neg();

    assert!(close(dual2.re, -1.0));
    assert!(close(dual2.du, -1.0));
}

#[test]
fn test_dual_scalar_dual_mul_dual() {
    let dual1 = DualScalar { re: fp(2.0), du: fp(3.0) };
    let dual2 = DualScalar { re: fp(4.0), du: fp(5.0) };
    let dual3 = dual1.mul(dual2);

    assert!(close(dual3.re, 8.0));
    assert!(close(dual3.du, 22.0));
}

#[test]
fn test_dual_scalar_borrow_dual_mul_borrow_dual() {
    let dual1 = DualScalar { re: fp(2.0), du: fp(3.0) };
    let dual2 = DualScalar { re: fp(4.0), du: fp(5.0) };
    let dual3 = dual1.mul(dual2);

    assert!(close(dual3.re, 8.0));
    assert!(close(dual3.du, 22.0));
}

#[test]
fn test_dual_scalar_dual_mul_borrow_dual() {
    let dual1 = DualScalar { re: fp(2.0), du: fp(3.0) };
    let dual2 = DualScalar { re: fp(4.0), du: fp(5.0) };
    let dual3 = dual1.mul(dual2);

    assert!(close(dual3.re, 8.0));
    assert!(close(dual3.du, 22.0));
}

#[test]
fn test_dual_scalar_borrow_dual_mul_dual() {
    let dual1 = DualScalar { re: fp(2.0), du: fp(3.0) };
    let dual2 = DualScalar { re: fp(4.0), du: fp(5.0) };
    let dual3 = dual1.mul(dual2);

    assert!(close(dual3.re, 8.0));
    assert!(close(dual3.du, 22.0));
}

#[test]
fn test_dual_scalar_dual_mul_f64() {
    let dual1 = DualScalar { re: fp(2.0), du: fp(3.0) };
    let dual2 = dual1.mul_real(fp(3.0));

    assert!(close(dual2.re, 6.0));
    assert!(close(dual2.du, 9.0));
}

#[test]
fn test_dual_scalar_borrow_dual_mul_f64() {
    let dual1 = DualScalar { re: fp(2.0), du: fp(3.0) };
    let dual2 = dual1.mul_real(fp(3.0));

    assert!(close(dual2.re, 6.0));
    assert!(close(dual2.du, 9.0));
}

#[test]
fn test_dual_scalar_f64_mul_dual() {
    let dual1 = DualScalar { re: fp(2.0), du: fp(3.0) };
    let dual2 = dual1.mul_real(fp(3.0));

    assert!(close(dual2.re, 6.0));
    assert!(close(dual2.du, 9.0));
}

#[test]
fn test_dual_scalar_f64_mul_borrow_dual() {
    let dual1 = DualScalar { re: fp(2.0), du: fp(3.0) };
    let dual2 = dual1.mul_real(fp(3.0));

    assert!(close(dual2.re, 6.0));
    assert!(close(dual2.du, 9.0));
}

#[test]
fn test_dual_scalar_dual_div_dual() {
    let dual1 = DualScalar { re: fp(2.0), du: fp(3.0) };
    let dual2 = DualScalar { re: fp(4.0), du: fp(5.0) };
    let dual3 = dual1.div(dual2);

    assert!(close(dual3.re, 0.5));
    assert!(close(dual3.du, 0.125));
}

#[test]
fn test_dual_scalar_borrow_dual_div_borrow_dual() {
    let dual1 = DualScalar { re: fp(2.0), du: fp(3.0) };
    let dual2 = DualScalar { re: fp(4.0), du: fp(5.0) };
    let dual3 = dual1.div(dual2);

    assert!(close(dual3.re, 0.5));
    assert!(close(dual3.du, 0.125));
}

#[test]
fn test_dual_scalar_dual_div_borrow_dual() {
    let dual1 = DualScalar { re: fp(2.0), du: fp(3.0) };
    let dual2 = DualScalar { re: fp(4.0), du: fp(5.0) };
    let dual3 = dual1.div(dual2);

    assert!(close(dual3.re, 0.5));
    assert!(close(dual3.du, 0.125));
}

#[test]
fn test_dual_scalar_borrow_dual_div_dual() {
    let dual1 = DualScalar { re: fp(2.0), du: fp(3.0) };
    let dual2 = DualScalar { re: fp(4.0), du: fp(5.0) };
    let dual3 = dual1.div(dual2);

    assert!(close(dual3.re, 0.5));
    assert!(close(dual3.du, 0.125));
}

#[test]
fn test_dual_scalar_dual_div_f64() {
    let dual1 = DualScalar { re: fp(2.0), du: fp(3.0) };
    let dual2 = dual1.div_real(fp(4.0));

    assert!(close(dual2.re, 0.5));
    assert!(close(dual2.du, 0.75));
}

#[test]
fn test_dual_scalar_borrow_dual_div_f64() {
    let dual1 = DualScalar { re: fp(2.0), du: fp(3.0) };
    let dual2 = dual1.div_real(fp(4.0));

    assert!(close(dual2.re, 0.5));
    assert!(close(dual2.du, 0.75));
}

#[test]
fn test_dual_scalar_f64_div_dual() {
    let dual1 = DualScalar { re: fp(2.0), du: fp(3.0) };
    let dual2 = DualScalar::real_div(fp(6.0), dual1);

    assert!(close(dual2.re, 3.0));
    assert!(close(dual2.du, 4.5));
}

#[test]
fn test_dual_scalar_f64_div_borrow_dual() {
    let dual1 = DualScalar { re: fp(2.0), du: fp(3.0) };
    let dual2 = DualScalar::real_div(fp(6.0), dual1);

    assert!(close(dual2.re, 3.0));
    assert!(close(dual2.du, 4.5));
}

