use optimization::fp::Fp;
use optimization::TrustNCG;
use optimization::CGSteihaug;
use optimization::number_system::HyperDualScalar;
use optimization::problem::Objective;
use optimization::problem::Gradient;
use optimization::problem::Hessian;

fn fp(v: f64) -> Fp {
    Fp::from_bits(v.to_bits())
}

fn val(a: Fp) -> f64 {
    f64::from_bits(a.bits)
}

fn close_to(a: Fp, b: f64, eps: f64) -> bool {
    (val(a) - b).abs() <= eps
}

fn hd(v: f64) -> HyperDualScalar {
    HyperDualScalar { re: fp(v), e1: fp(0.0), e2: fp(0.0), e1e2: fp(0.0) }
}

// Objective with its variables stored as hyperdual scalars, so that one
// doubly seeded evaluation yields one mixed second derivative:
// (cos(x1)*sin(x2) - 0.05)^2 + (sin(x2) - 0.2)^2 + (x3^2 - 2.56)^2.
struct ProblemObjective {
    x: Vec<HyperDualScalar>,
    value: HyperDualScalar,
}

impl ProblemObjective {
    fn eval_inner(&mut self) {
        let x1 = self.x[0];
        let x2 = self.x[1];
        let x3 = self.x[2];

        let u1 = x1.cos().mul(x2.sin()).sub_real(fp(0.05));
        let u2 = x2.sin().sub_real(fp(0.2));
        let u3 = x3.powi(2).sub_real(fp(2.56));

        self.value = u1.powi(2).add(u2.powi(2)).add(u3.powi(2));
    }
}

impl Objective for ProblemObjective {
    fn eval(&mut self) {
        self.eval_inner();
    }

    fn eval_real(&mut self) -> Fp {
        self.eval_inner();
        self.value.re
    }

    fn update_x(&mut self, x: &Vec<Fp>) {
        for i in 0..self.x.len() {
            self.x[i] = hd(val(x[i]));
        }
    }

    fn move_step(&mut self, x: &Vec<Fp>, p: &Vec<Fp>, alpha: Fp) {
        for i in 0..self.x.len() {
            self.x[i] = hd(val(x[i].add(alpha.mul(p[i]))));
            self.x[i].e1 = p[i];
        }
    }
}

impl Gradient for ProblemObjective {
    fn grad(&mut self, output: &mut Vec<Fp>) {
        for i in 0..self.x.len() {
            self.x[i].e1 = fp(1.0);
            self.eval_inner();
            output[i] = self.value.e1;
            self.x[i].e1 = fp(0.0);
        }
    }

    fn diff(&mut self) -> Fp {
        self.eval_inner();
        self.value.e1
    }
}

impl Hessian for ProblemObjective {
    fn hess(&mut self, output: &mut Vec<Vec<Fp>>) {
        for i in 0..self.x.len() {
            for j in i..self.x.len() {
                self.x[i].e1 = fp(1.0);
                self.x[j].e2 = fp(1.0);
                self.eval_inner();
                output[i][j] = self.value.e1e2;
                output[j][i] = self.value.e1e2;
                self.x[i].e1 = fp(0.0);
                self.x[j].e2 = fp(0.0);
            }
        }
    }
}

fn fresh_problem() -> ProblemObjective {
    ProblemObjective { x: vec![hd(1.0), hd(1.0), hd(1.0)], value: HyperDualScalar::new() }
}

// The analytical solution of the test objective is
// x1 = acos(0.05/0.2) = 1.318116071652818
// x2 = asin(0.2)      = 0.2013579207903308
// x3 = sqrt(2.56)     = 1.6
#[test]
fn test_trust_ncg() {
    let x0 = vec![fp(1.0), fp(1.0), fp(1.0)];
    let mut min = TrustNCG::new();
    let mut problem = fresh_problem();
    let sol = min.minimize(&x0, &mut problem);

    assert!(sol.success);
    assert!(close_to(sol.x[0], 1.318116071652818, 0.0001));
    assert!(close_to(sol.x[1], 0.2013579207903308, 0.0001));
    assert!(close_to(sol.x[2], 1.6, 0.0001));
    assert!(sol.f_hess_evals > 0);
}

// On a strongly convex quadratic with the gradient well inside the trust
// region, one conjugate-gradient solve lands on the Newton step.
#[test]
fn test_steihaug_interior_solution() {
    let x0 = vec![fp(0.0), fp(0.0)];
    let mut cg = CGSteihaug::new(&x0);
    // model: g = [0.01, 0.01], B = diag(2, 4); minimizer is
    // [-0.005, -0.0025], reached exactly after two conjugate steps
    let g = vec![fp(0.01), fp(0.01)];
    let b = vec![vec![fp(2.0), fp(0.0)], vec![fp(0.0), fp(4.0)]];
    let mut out = vec![fp(0.0), fp(0.0)];
    cg.solve_step(&g, &b, fp(10.0), &mut out);
    assert!(close_to(out[0], -0.005, 1e-9));
    assert!(close_to(out[1], -0.0025, 1e-9));
}

// With a tiny radius the step stops on the trust-region boundary.
#[test]
fn test_steihaug_boundary_solution() {
    let x0 = vec![fp(0.0), fp(0.0)];
    let mut cg = CGSteihaug::new(&x0);
    let g = vec![fp(3.0), fp(4.0)];
    let b = vec![vec![fp(1.0), fp(0.0)], vec![fp(0.0), fp(1.0)]];
    let mut out = vec![fp(0.0), fp(0.0)];
    let delta = 0.1;
    cg.solve_step(&g, &b, fp(delta), &mut out);
    let norm = (val(out[0]) * val(out[0]) + val(out[1]) * val(out[1])).sqrt();
    assert!((norm - delta).abs() <= 1e-12);
}

// Negative curvature sends the step to the trust-region boundary along
// the current direction: the returned step has norm exactly delta.
#[test]
fn test_steihaug_negative_curvature() {
    let x0 = vec![fp(0.0), fp(0.0)];
    let mut cg = CGSteihaug::new(&x0);
    let g = vec![fp(1.0), fp(0.0)];
    let b = vec![vec![fp(-2.0), fp(0.0)], vec![fp(0.0), fp(-2.0)]];
    let mut out = vec![fp(0.0), fp(0.0)];
    cg.solve_step(&g, &b, fp(1.0), &mut out);
    let norm = (val(out[0]) * val(out[0]) + val(out[1]) * val(out[1])).sqrt();
    assert!((norm - 1.0).abs() <= 1e-12);
}

// An exhausted step budget returns the last interior conjugate-gradient
// point rather than leaving the output untouched.
#[test]
fn test_steihaug_exhaustion_returns_interior_point() {
    let x0 = vec![fp(0.0), fp(0.0)];
    let mut cg = CGSteihaug::new(&x0);
    cg.j_max = 1;
    // one CG step from zero lands at -(g.g/g.Bg).g, still interior
    let g = vec![fp(0.01), fp(0.01)];
    let b = vec![vec![fp(2.0), fp(0.0)], vec![fp(0.0), fp(4.0)]];
    let mut out = vec![fp(7.0), fp(7.0)];
    cg.solve_step(&g, &b, fp(10.0), &mut out);
    let expected = 0.01f64 * (2e-4f64 / 6e-4f64);
    assert!((val(out[0]) + expected).abs() <= 1e-12);
    assert!((val(out[1]) + expected).abs() <= 1e-12);
}
