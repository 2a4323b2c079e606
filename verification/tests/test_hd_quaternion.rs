use optimization::fp::Fp;
use optimization::number_system::HyperDualScalar as HDual;
use optimization::geometry::HDQuaternion;

#[allow(dead_code)]
fn fp(v: f64) -> Fp {
    Fp::from_bits(v.to_bits())
}

#[allow(dead_code)]
fn val(a: Fp) -> f64 {
    f64::from_bits(a.bits)
}

#[allow(dead_code)]
fn close(a: Fp, b: f64) -> bool {
    (val(a) - b).abs() <= f64::EPSILON
}

#[allow(dead_code)]
fn mat0() -> Vec<Vec<Fp>> {
    vec![vec![fp(0.0); 3]; 3]
}

#[allow(dead_code)]
fn fsum(m: &Vec<Vec<Fp>>) -> f64 {
    let mut s = 0.0;
    for row in m {
        for e in row {
            s += val(*e);
        }
    }
    s
}

#[test]
fn test_hd_quaternion_new_values() {
    let q = HDQuaternion::new();

    assert!(close(q.q0.re, 0.0));
    assert!(close(q.q1.re, 0.0));
    assert!(close(q.q2.re, 0.0));
    assert!(close(q.q3.re, 0.0));
}

#[test]
fn from_x_value() {
    let phi = HDual { re: fp(std::f64::consts::PI), e1: fp(0.0), e2: fp(0.0), e1e2: fp(0.0) };
    let q = HDQuaternion::from_x_angle(phi.div_real(fp(2.0)));

    assert!(close(q.q0.re, 1.0/2.0_f64.sqrt()));
    assert!(close(q.q1.re, 0.0));
    assert!(close(q.q2.re, 0.0));
    assert!(close(q.q3.re, 1.0/2.0_f64.sqrt()));
}

#[test]
fn from_y_value() {
    let theta = HDual { re: fp(std::f64::consts::PI), e1: fp(0.0), e2: fp(0.0), e1e2: fp(0.0) };
    let q = HDQuaternion::from_y_angle(theta.div_real(fp(2.0)));

    assert!(close(q.q0.re, 0.0));
    assert!(close(q.q1.re, 1.0/2.0_f64.sqrt()));
    assert!(close(q.q2.re, 0.0));
    assert!(close(q.q3.re, 1.0/2.0_f64.sqrt()));
}

#[test]
fn from_z_value() {
    let psi = HDual { re: fp(std::f64::consts::PI), e1: fp(0.0), e2: fp(0.0), e1e2: fp(0.0) };
    let q = HDQuaternion::from_z_angle(psi.div_real(fp(2.0)));

    assert!(close(q.q0.re, 0.0));
    assert!(close(q.q1.re, 0.0));
    assert!(close(q.q2.re, 1.0/2.0_f64.sqrt()));
    assert!(close(q.q3.re, 1.0/2.0_f64.sqrt()));
}

#[test]
fn invue() {
    let psi = HDual { re: fp(std::f64::consts::PI), e1: fp(0.0), e2: fp(0.0), e1e2: fp(0.0) };
    let q = HDQuaternion::from_z_angle(psi.div_real(fp(2.0))).inv();

    assert!(close(q.q0.re, 0.0));
    assert!(close(q.q1.re, 0.0));
    assert!(close(q.q2.re, -1.0/2.0_f64.sqrt()));
    assert!(close(q.q3.re, 1.0/2.0_f64.sqrt()));
}

#[test]
fn q_add_q() {
    let phi = HDual { re: fp(std::f64::consts::PI), e1: fp(0.0), e2: fp(0.0), e1e2: fp(0.0) };
    let q_a = HDQuaternion::from_x_angle(phi.div_real(fp(2.0)));

    let theta = HDual { re: fp(std::f64::consts::PI), e1: fp(0.0), e2: fp(0.0), e1e2: fp(0.0) };
    let q_b = HDQuaternion::from_y_angle(theta.div_real(fp(2.0)));

    let q = q_a.add(q_b);

    assert!(close(q.q0.re, 1.0/2.0_f64.sqrt()));
    assert!(close(q.q1.re, 1.0/2.0_f64.sqrt()));
    assert!(close(q.q2.re, 0.0));
    assert!(close(q.q3.re, 2.0/2.0_f64.sqrt()));
}

#[test]
fn borrow_q_add_borrow_q() {
    let phi = HDual { re: fp(std::f64::consts::PI), e1: fp(0.0), e2: fp(0.0), e1e2: fp(0.0) };
    let q_a = HDQuaternion::from_x_angle(phi.div_real(fp(2.0)));

    let theta = HDual { re: fp(std::f64::consts::PI), e1: fp(0.0), e2: fp(0.0), e1e2: fp(0.0) };
    let q_b = HDQuaternion::from_y_angle(theta.div_real(fp(2.0)));

    let q = q_a.add(q_b);

    assert!(close(q.q0.re, 1.0/2.0_f64.sqrt()));
    assert!(close(q.q1.re, 1.0/2.0_f64.sqrt()));
    assert!(close(q.q2.re, 0.0));
    assert!(close(q.q3.re, 2.0/2.0_f64.sqrt()));
}

#[test]
fn q_add_borrow_q() {
    let phi = HDual { re: fp(std::f64::consts::PI), e1: fp(0.0), e2: fp(0.0), e1e2: fp(0.0) };
    let q_a = HDQuaternion::from_x_angle(phi.div_real(fp(2.0)));

    let theta = HDual { re: fp(std::f64::consts::PI), e1: fp(0.0), e2: fp(0.0), e1e2: fp(0.0) };
    let q_b = HDQuaternion::from_y_angle(theta.div_real(fp(2.0)));

    let q = q_a.add(q_b);

    assert!(close(q.q0.re, 1.0/2.0_f64.sqrt()));
    assert!(close(q.q1.re, 1.0/2.0_f64.sqrt()));
    assert!(close(q.q2.re, 0.0));
    assert!(close(q.q3.re, 2.0/2.0_f64.sqrt()));
}

#[test]
fn borrow_q_add_q() {
    let phi = HDual { re: fp(std::f64::consts::PI), e1: fp(0.0), e2: fp(0.0), e1e2: fp(0.0) };
    let q_a = HDQuaternion::from_x_angle(phi.div_real(fp(2.0)));

    let theta = HDual { re: fp(std::f64::consts::PI), e1: fp(0.0), e2: fp(0.0), e1e2: fp(0.0) };
    let q_b = HDQuaternion::from_y_angle(theta.div_real(fp(2.0)));

    let q = q_a.add(q_b);

    assert!(close(q.q0.re, 1.0/2.0_f64.sqrt()));
    assert!(close(q.q1.re, 1.0/2.0_f64.sqrt()));
    assert!(close(q.q2.re, 0.0));
    assert!(close(q.q3.re, 2.0/2.0_f64.sqrt()));
}

#[test]
fn q_sub_q() {
    let phi = HDual { re: fp(std::f64::consts::PI), e1: fp(0.0), e2: fp(0.0), e1e2: fp(0.0) };
    let q_a = HDQuaternion::from_x_angle(phi.div_real(fp(2.0)));

    let theta = HDual { re: fp(std::f64::consts::PI), e1: fp(0.0), e2: fp(0.0), e1e2: fp(0.0) };
    let q_b = HDQuaternion::from_y_angle(theta.div_real(fp(2.0)));

    let q = q_a.sub(q_b);

    assert!(close(q.q0.re, 1.0/2.0_f64.sqrt()));
    assert!(close(q.q1.re, -1.0/2.0_f64.sqrt()));
    assert!(close(q.q2.re, 0.0));
    assert!(close(q.q3.re, 0.0));
}

#[test]
fn borrow_q_sub_borrow_q() {
    let phi = HDual { re: fp(std::f64::consts::PI), e1: fp(0.0), e2: fp(0.0), e1e2: fp(0.0) };
    let q_a = HDQuaternion::from_x_angle(phi.div_real(fp(2.0)));

    let theta = HDual { re: fp(std::f64::consts::PI), e1: fp(0.0), e2: fp(0.0), e1e2: fp(0.0) };
    let q_b = HDQuaternion::from_y_angle(theta.div_real(fp(2.0)));

    let q = q_a.sub(q_b);

    assert!(close(q.q0.re, 1.0/2.0_f64.sqrt()));
    assert!(close(q.q1.re, -1.0/2.0_f64.sqrt()));
    assert!(close(q.q2.re, 0.0));
    assert!(close(q.q3.re, 0.0));
}

#[test]
fn q_sub_borrow_q() {
    let phi = HDual { re: fp(std::f64::consts::PI), e1: fp(0.0), e2: fp(0.0), e1e2: fp(0.0) };
    let q_a = HDQuaternion::from_x_angle(phi.div_real(fp(2.0)));

    let theta = HDual { re: fp(std::f64::consts::PI), e1: fp(0.0), e2: fp(0.0), e1e2: fp(0.0) };
    let q_b = HDQuaternion::from_y_angle(theta.div_real(fp(2.0)));

    let q = q_a.sub(q_b);

    assert!(close(q.q0.re, 1.0/2.0_f64.sqrt()));
    assert!(close(q.q1.re, -1.0/2.0_f64.sqrt()));
    assert!(close(q.q2.re, 0.0));
    assert!(close(q.q3.re, 0.0));
}

#[test]
fn borrow_q_sub_q() {
    let phi = HDual { re: fp(std::f64::consts::PI), e1: fp(0.0), e2: fp(0.0), e1e2: fp(0.0) };
    let q_a = HDQuaternion::from_x_angle(phi.div_real(fp(2.0)));

    let theta = HDual { re: fp(std::f64::consts::PI), e1: fp(0.0), e2: fp(0.0), e1e2: fp(0.0) };
    let q_b = HDQuaternion::from_y_angle(theta.div_real(fp(2.0)));

    let q = q_a.sub(q_b);

    assert!(close(q.q0.re, 1.0/2.0_f64.sqrt()));
    assert!(close(q.q1.re, -1.0/2.0_f64.sqrt()));
    assert!(close(q.q2.re, 0.0));
    assert!(close(q.q3.re, 0.0));
}

#[test]
fn neg_q() {
    let phi = HDual { re: fp(std::f64::consts::PI), e1: fp(0.0), e2: fp(0.0), e1e2: fp(0.0) };
    let q_a = HDQuaternion::from_x_angle(phi.div_real(fp(2.0)));

    let q = q_a.neg();

    assert!(close(q.q0.re, -1.0/2.0_f64.sqrt()));
    assert!(close(q.q1.re, 0.0));
    assert!(close(q.q2.re, 0.0));
    assert!(close(q.q3.re, -1.0/2.0_f64.sqrt()));
}

#[test]
fn neg_borrow_q() {
    let phi = HDual { re: fp(std::f64::consts::PI), e1: fp(0.0), e2: fp(0.0), e1e2: fp(0.0) };
    let q_a = HDQuaternion::from_x_angle(phi.div_real(fp(2.0)));

    let q = q_a.neg();

    assert!(close(q.q0.re, -1.0/2.0_f64.sqrt()));
    assert!(close(q.q1.re, 0.0));
    assert!(close(q.q2.re, 0.0));
    assert!(close(q.q3.re, -1.0/2.0_f64.sqrt()));
}

#[test]
fn q_mul_q() {
    let phi = HDual { re: fp(std::f64::consts::PI), e1: fp(0.0), e2: fp(0.0), e1e2: fp(0.0) };
    let q_a = HDQuaternion::from_x_angle(phi.div_real(fp(2.0)));

    let theta = HDual { re: fp(std::f64::consts::PI), e1: fp(0.0), e2: fp(0.0), e1e2: fp(0.0) };
    let q_b = HDQuaternion::from_y_angle(theta.div_real(fp(2.0)));

    let q = q_b.mul(q_a);

    assert!(close(q.q0.re, 0.5));
    assert!(close(q.q1.re, 0.5));
    assert!(close(q.q2.re, -0.5));
    assert!(close(q.q3.re, 0.5));
}

#[test]
fn borrow_q_mul_borrow_q() {
    let phi = HDual { re: fp(std::f64::consts::PI), e1: fp(0.0), e2: fp(0.0), e1e2: fp(0.0) };
    let q_a = HDQuaternion::from_x_angle(phi.div_real(fp(2.0)));

    let theta = HDual { re: fp(std::f64::consts::PI), e1: fp(0.0), e2: fp(0.0), e1e2: fp(0.0) };
    let q_b = HDQuaternion::from_y_angle(theta.div_real(fp(2.0)));

    let q = q_b.mul(q_a);

    assert!(close(q.q0.re, 0.5));
    assert!(close(q.q1.re, 0.5));
    assert!(close(q.q2.re, -0.5));
    assert!(close(q.q3.re, 0.5));
}

#[test]
fn q_mul_borrow_q() {
    let phi = HDual { re: fp(std::f64::consts::PI), e1: fp(0.0), e2: fp(0.0), e1e2: fp(0.0) };
    let q_a = HDQuaternion::from_x_angle(phi.div_real(fp(2.0)));

    let theta = HDual { re: fp(std::f64::consts::PI), e1: fp(0.0), e2: fp(0.0), e1e2: fp(0.0) };
    let q_b = HDQuaternion::from_y_angle(theta.div_real(fp(2.0)));

    let q = q_b.mul(q_a);

    assert!(close(q.q0.re, 0.5));
    assert!(close(q.q1.re, 0.5));
    assert!(close(q.q2.re, -0.5));
    assert!(close(q.q3.re, 0.5));
}

#[test]
fn borrow_q_mul_q() {
    let phi = HDual { re: fp(std::f64::consts::PI), e1: fp(0.0), e2: fp(0.0), e1e2: fp(0.0) };
    let q_a = HDQuaternion::from_x_angle(phi.div_real(fp(2.0)));

    let theta = HDual { re: fp(std::f64::consts::PI), e1: fp(0.0), e2: fp(0.0), e1e2: fp(0.0) };
    let q_b = HDQuaternion::from_y_angle(theta.div_real(fp(2.0)));

    let q = q_b.mul(q_a);

    assert!(close(q.q0.re, 0.5));
    assert!(close(q.q1.re, 0.5));
    assert!(close(q.q2.re, -0.5));
    assert!(close(q.q3.re, 0.5));
}

#[test]
fn q_mul_f64() {
    let phi = HDual { re: fp(std::f64::consts::PI), e1: fp(0.0), e2: fp(0.0), e1e2: fp(0.0) };
    let q_a = HDQuaternion::from_x_angle(phi.div_real(fp(2.0)));

    let q = q_a.mul_real(fp(2.0));

    assert!(close(q.q0.re, 2.0/2.0_f64.sqrt()));
    assert!(close(q.q1.re, 0.0));
    assert!(close(q.q2.re, 0.0));
    assert!(close(q.q3.re, 2.0/2.0_f64.sqrt()));
}

#[test]
fn borrow_q_mul_f64() {
    let phi = HDual { re: fp(std::f64::consts::PI), e1: fp(0.0), e2: fp(0.0), e1e2: fp(0.0) };
    let q_a = HDQuaternion::from_x_angle(phi.div_real(fp(2.0)));

    let q = q_a.mul_real(fp(2.0));

    assert!(close(q.q0.re, 2.0/2.0_f64.sqrt()));
    assert!(close(q.q1.re, 0.0));
    assert!(close(q.q2.re, 0.0));
    assert!(close(q.q3.re, 2.0/2.0_f64.sqrt()));
}

#[test]
fn f64_mul_q() {
    let phi = HDual { re: fp(std::f64::consts::PI), e1: fp(0.0), e2: fp(0.0), e1e2: fp(0.0) };
    let q_a = HDQuaternion::from_x_angle(phi.div_real(fp(2.0)));

    let q = q_a.mul_real(fp(2.0));

    assert!(close(q.q0.re, 2.0/2.0_f64.sqrt()));
    assert!(close(q.q1.re, 0.0));
    assert!(close(q.q2.re, 0.0));
    assert!(close(q.q3.re, 2.0/2.0_f64.sqrt()));
}

#[test]
fn f64_mul_borrow_q() {
    let phi = HDual { re: fp(std::f64::consts::PI), e1: fp(0.0), e2: fp(0.0), e1e2: fp(0.0) };
    let q_a = HDQuaternion::from_x_angle(phi.div_real(fp(2.0)));

    let q = q_a.mul_real(fp(2.0));

    assert!(close(q.q0.re, 2.0/2.0_f64.sqrt()));
    assert!(close(q.q1.re, 0.0));
    assert!(close(q.q2.re, 0.0));
    assert!(close(q.q3.re, 2.0/2.0_f64.sqrt()));
}

