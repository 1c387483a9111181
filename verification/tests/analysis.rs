use structmech::direct_stiffness::{AnalysisError, BeamResult, BeamResultSet};
use structmech::fuzzy::{FuzzyTrapezoidal, FuzzyTriangular, FuzzyVariable};
use structmech::matrix::{cholesky_factor, cholesky_solve, Mat};
use structmech::optimize::{
    alpha_level_optimize, golden_contraction_optimizer, optimize_downhill_simplex,
    simplex_optimization,
};
use structmech::scalar::Scalar;
use structmech::stochastic::ExperimentalCumulativeDistributionFunction;
use structmech::system::{
    Beam, Crosssection, Point, StaticLinearLineload, StaticLoad, Support, System, SystemLoading,
};

/// IEEE doubles as the library's scalar, with the trigonometry taken from
/// libm.
#[derive(Clone, Copy, Debug, PartialEq)]
struct R64(f64);

impl Scalar for R64 {
    fn zero() -> Self {
        R64(0.0)
    }
    fn one() -> Self {
        R64(1.0)
    }
    fn from_i64(v: i64) -> Self {
        R64(v as f64)
    }
    fn from_usize(v: usize) -> Self {
        R64(v as f64)
    }
    fn ratio(num: i64, den: i64) -> Self {
        R64(num as f64 / den as f64)
    }
    fn plus(self, other: Self) -> Self {
        R64(self.0 + other.0)
    }
    fn minus(self, other: Self) -> Self {
        R64(self.0 - other.0)
    }
    fn times(self, other: Self) -> Self {
        R64(self.0 * other.0)
    }
    fn over(self, other: Self) -> Self {
        R64(self.0 / other.0)
    }
    fn neg(self) -> Self {
        R64(-self.0)
    }
    fn abs(self) -> Self {
        R64(self.0.abs())
    }
    fn sqrt(self) -> Self {
        R64(self.0.sqrt())
    }
    fn sin(self) -> Self {
        R64(libm::sin(self.0))
    }
    fn cos(self) -> Self {
        R64(libm::cos(self.0))
    }
    fn atan2(self, other: Self) -> Self {
        R64(libm::atan2(self.0, other.0))
    }
    fn lt(self, other: Self) -> bool {
        self.0 < other.0
    }
    fn le(self, other: Self) -> bool {
        self.0 <= other.0
    }
    fn eq_val(self, other: Self) -> bool {
        self.0 == other.0
    }
    fn floor_to_usize(self) -> usize {
        self.0.floor() as usize
    }
}

fn r(x: f64) -> R64 {
    R64(x)
}

fn rvec(xs: &[f64]) -> Vec<R64> {
    xs.iter().map(|&x| R64(x)).collect()
}

const E_MOD: f64 = 2.1e8;
const AREA: f64 = 0.01;
const FTM: f64 = 1e-4;

fn plain_beam() -> Beam<R64> {
    Beam::new(
        Crosssection::new(r(E_MOD), r(AREA), r(FTM)),
        [false; 6],
        [r(0.0); 6],
        r(0.0),
        r(0.0),
    )
}

fn fixed_support() -> Support<R64> {
    Support::new(r(0.0), [false, false, false], [r(0.0); 3])
}

fn pin_support() -> Support<R64> {
    Support::new(r(0.0), [false, false, true], [r(0.0); 3])
}

fn roller_support() -> Support<R64> {
    Support::new(r(0.0), [true, false, true], [r(0.0); 3])
}

fn point_load(fx: f64, fy: f64, m: f64) -> StaticLoad<R64> {
    StaticLoad::new(r(fx), r(fy), r(m))
}

fn no_loads() -> SystemLoading<R64> {
    SystemLoading::new(vec![], vec![], vec![], vec![])
}

fn cantilever(length: f64) -> System<R64> {
    System::new(
        vec![Point::new(r(0.0), r(0.0)), Point::new(r(length), r(0.0))],
        vec![[0, 1]],
        vec![plain_beam()],
        vec![0],
        vec![fixed_support()],
    )
}

fn solved(sys: &System<R64>, loading: &SystemLoading<R64>) -> BeamResultSet<R64> {
    match sys.matrix_stiffness_method_first_order(loading) {
        Ok(t) => t,
        Err(e) => panic!("unexpected analysis failure: {:?}", e),
    }
}

fn rosenbrock(vc: &Vec<R64>) -> R64 {
    let mut res = 0.0;
    for i in 0..vc.len() - 1 {
        res += 100.0 * (vc[i + 1].0 - vc[i].0 * vc[i].0).powi(2) + (1.0 - vc[i].0).powi(2);
    }
    R64(res)
}

fn optimum_corner(vc: &Vec<R64>) -> R64 {
    R64(vc[0].0 + vc[1].0)
}

const EPS: f64 = 1e-8;

#[test]
fn rosenbrocks_function() {
    let lower = rvec(&[-2.0, -2.0]);
    let upper = rvec(&[2.0, 2.0]);
    let start = rvec(&[0.0, 0.0]);
    let res = simplex_optimization(lower, upper, start, rosenbrock);
    assert!((res[0].0 - 1.0).abs() < EPS);
    assert!((res[1].0 - 1.0).abs() < EPS);
}

#[test]
fn double_linear_function() {
    let lower = rvec(&[-2.0, -2.0]);
    let upper = rvec(&[2.0, 2.0]);
    let start = rvec(&[0.0, 0.0]);
    let res = simplex_optimization(lower, upper, start, optimum_corner);
    assert!((res[0].0 - -2.0).abs() < EPS);
    assert!((res[1].0 - -2.0).abs() < EPS);
}

#[test]
fn golden_section_finds_minimum() {
    let f = |x: R64| R64((x.0 - 3.0) * (x.0 - 3.0));
    let v = golden_contraction_optimizer(r(0.0), r(10.0), &f);
    // The reported value is f at the final right bracket edge; a value
    // this small puts the edge within 1e-4 of the true minimizer 3.
    assert!(v.0.abs() < 1e-8);
}

#[test]
fn golden_min_max_consistent() {
    let f = |x: R64| R64((x.0 - 3.0) * (x.0 - 3.0));
    let fuzz = FuzzyTriangular::new(r(0.0), r(3.0), r(10.0));
    let (min, max) = alpha_level_optimize(&fuzz, r(0.0), f);
    assert!(min.0.abs() < 1e-8);
    // The maximum over [0, 10] sits at the right edge: f(10) = 49 beats
    // f(0) = 9.
    assert!((max.0 - 49.0).abs() < 1e-6);
}

#[test]
fn downhill_simplex_linear() {
    let lower = rvec(&[-2.0, -2.0]);
    let upper = rvec(&[2.0, 2.0]);
    let start = rvec(&[0.0, 0.0]);
    let f = |v: &Vec<R64>| R64(v[0].0 + v[1].0);
    let res = optimize_downhill_simplex(&lower, &upper, &start, &f);
    assert!((res[0].0 - 1.5).abs() < 1e-9);
    assert!((res[1].0 - 0.5).abs() < 1e-9);
}

#[test]
fn downhill_simplex_peak() {
    let lower = rvec(&[-2.0, -2.0]);
    let upper = rvec(&[2.0, 2.0]);
    let start = rvec(&[0.5, 0.5]);
    let f = |v: &Vec<R64>| R64(-(v[0].0 - 1.0).powi(2) - (v[1].0 - 0.5).powi(2));
    let res = optimize_downhill_simplex(&lower, &upper, &start, &f);
    assert!((res[0].0 - 1.25).abs() < 1e-9);
    assert!((res[1].0 - 0.5).abs() < 1e-9);
}

#[test]
fn simply_supported_beam_reactions() {
    // Two elements spanning 4 length units, pin left, roller right, a
    // central downward point load of 10: each support carries 5 and the
    // midspan moment is P L / 4 = 10.
    let sys = System::new(
        vec![
            Point::new(r(0.0), r(0.0)),
            Point::new(r(2.0), r(0.0)),
            Point::new(r(4.0), r(0.0)),
        ],
        vec![[0, 1], [1, 2]],
        vec![plain_beam(), plain_beam()],
        vec![0, 2],
        vec![pin_support(), roller_support()],
    );
    let loading = SystemLoading::new(vec![1], vec![point_load(0.0, -10.0, 0.0)], vec![], vec![]);
    let rs = solved(&sys, &loading);
    assert_eq!(rs.get_results().len(), 2);
    let rsk0 = rs.get_results()[0].get_rsks();
    assert!((rsk0[1].0 - 5.0).abs() < 1e-9);
    assert!((rsk0[4].0 - 5.0).abs() < 1e-9);
    assert!((rsk0[5].0 - 10.0).abs() < 1e-9);
    let rsk1 = rs.get_results()[1].get_rsks();
    assert!((rsk1[2].0 - 10.0).abs() < 1e-9);
    let mid = rs.get_results()[0].get_internals_at(r(2.0));
    assert!((mid[2].0 - 10.0).abs() < 1e-9);
    // Midspan deflection P L^3 / (48 E I), textbook value to 1e-6 relative.
    let expect = 10.0 * 4.0_f64.powi(3) / (48.0 * E_MOD * FTM);
    assert!((mid[4].0 - expect).abs() < expect * 1e-6);
}

#[test]
fn cantilever_tip_deflection() {
    let sys = cantilever(3.0);
    let loading = SystemLoading::new(vec![1], vec![point_load(0.0, -10.0, 0.0)], vec![], vec![]);
    let rs = solved(&sys, &loading);
    let root = rs.get_results()[0].get_internals_at(r(0.0));
    assert!((root[2].0 - -30.0).abs() < 1e-9);
    assert!((root[1].0 - 10.0).abs() < 1e-9);
    let tip = rs.get_results()[0].get_internals_at(r(3.0));
    // Tip deflection P L^3 / (3 E I), textbook value to 1e-6 relative.
    let expect = 10.0 * 3.0_f64.powi(3) / (3.0 * E_MOD * FTM);
    assert!((tip[4].0 - expect).abs() < expect * 1e-6);
    assert!(tip[2].0.abs() < 1e-9);
}

#[test]
fn lineload_cantilever() {
    let sys = cantilever(3.0);
    let loading = SystemLoading::new(
        vec![],
        vec![],
        vec![0],
        vec![StaticLinearLineload::new_constant_load(r(5.0))],
    );
    let rs = solved(&sys, &loading);
    let rsk = rs.get_results()[0].get_rsks();
    // Root shear q L = 15, root moment -q L^2 / 2 = -22.5.
    assert!((rsk[1].0 - 15.0).abs() < 1e-9);
    assert!((rsk[2].0 - -22.5).abs() < 1e-9);
    let tip = rs.get_results()[0].get_internals_at(r(3.0));
    // Tip deflection q L^4 / (8 E I).
    let expect = 5.0 * 3.0_f64.powi(4) / (8.0 * E_MOD * FTM);
    assert!((tip[4].0 - expect).abs() < expect * 1e-6);
}

fn rotated_point(x: f64, y: f64, theta: f64) -> Point<R64> {
    Point::new(
        r(theta.cos() * x - theta.sin() * y),
        r(theta.sin() * x + theta.cos() * y),
    )
}

#[test]
fn rotation_preserves_local_forces() {
    let theta = 0.7_f64;
    let base = cantilever(3.0);
    let base_load =
        SystemLoading::new(vec![1], vec![point_load(0.0, -10.0, 0.0)], vec![], vec![]);
    let base_rs = solved(&base, &base_load);

    let rotated = System::new(
        vec![rotated_point(0.0, 0.0, theta), rotated_point(3.0, 0.0, theta)],
        vec![[0, 1]],
        vec![plain_beam()],
        vec![0],
        vec![fixed_support()],
    );
    let (fx, fy) = (
        theta.cos() * 0.0 - theta.sin() * -10.0,
        theta.sin() * 0.0 + theta.cos() * -10.0,
    );
    let rot_load = SystemLoading::new(vec![1], vec![point_load(fx, fy, 0.0)], vec![], vec![]);
    let rot_rs = solved(&rotated, &rot_load);

    let a = base_rs.get_results()[0].get_rsks();
    let b = rot_rs.get_results()[0].get_rsks();
    for k in 0..6 {
        assert!((a[k].0 - b[k].0).abs() < 1e-9, "rsk[{}]: {} vs {}", k, a[k].0, b[k].0);
    }
}

#[test]
fn assembler_is_idempotent() {
    let sys = cantilever(3.0);
    let loading = SystemLoading::new(
        vec![1],
        vec![point_load(3.0, -10.0, 1.5)],
        vec![0],
        vec![StaticLinearLineload::new_constant_load(r(2.0))],
    );
    let first = solved(&sys, &loading);
    let second = solved(&sys, &loading);
    for (a, b) in first.get_results().iter().zip(second.get_results().iter()) {
        for k in 0..6 {
            assert_eq!(a.get_rsks()[k].0.to_bits(), b.get_rsks()[k].0.to_bits());
            assert_eq!(a.get_rvs()[k].0.to_bits(), b.get_rvs()[k].0.to_bits());
        }
    }
}

#[test]
fn singular_frame_rejected() {
    // A pinned node that no beam reaches keeps an exactly free rotation: a
    // rigid-body mechanism the factorization must refuse.
    let sys = System::new(
        vec![
            Point::new(r(0.0), r(0.0)),
            Point::new(r(4.0), r(0.0)),
            Point::new(r(9.0), r(9.0)),
        ],
        vec![[0, 1]],
        vec![plain_beam()],
        vec![0, 2],
        vec![fixed_support(), pin_support()],
    );
    let loading = SystemLoading::new(vec![1], vec![point_load(0.0, -10.0, 0.0)], vec![], vec![]);
    match sys.matrix_stiffness_method_first_order(&loading) {
        Err(AnalysisError::SingularSystem) => {}
        other => panic!("expected a singular-system failure, got {:?}", other.is_ok()),
    }
}

#[test]
fn invalid_geometry_rejected() {
    // A beam endpoint outside the node list.
    let sys = System::new(
        vec![Point::new(r(0.0), r(0.0)), Point::new(r(3.0), r(0.0))],
        vec![[0, 5]],
        vec![plain_beam()],
        vec![0],
        vec![fixed_support()],
    );
    let loading = no_loads();
    assert!(matches!(
        sys.matrix_stiffness_method_first_order(&loading),
        Err(AnalysisError::InvalidGeometry)
    ));
    // Parallel arrays of different lengths.
    let sys = System::new(
        vec![Point::new(r(0.0), r(0.0)), Point::new(r(3.0), r(0.0))],
        vec![[0, 1], [0, 1]],
        vec![plain_beam()],
        vec![0],
        vec![fixed_support()],
    );
    assert!(matches!(
        sys.matrix_stiffness_method_first_order(&loading),
        Err(AnalysisError::InvalidGeometry)
    ));
    // A loaded node outside the node list.
    let sys = cantilever(3.0);
    let loading = SystemLoading::new(vec![7], vec![point_load(0.0, -1.0, 0.0)], vec![], vec![]);
    assert!(matches!(
        sys.matrix_stiffness_method_first_order(&loading),
        Err(AnalysisError::InvalidGeometry)
    ));
}

#[test]
fn zero_length_beam_rejected() {
    let sys = System::new(
        vec![Point::new(r(1.0), r(1.0)), Point::new(r(1.0), r(1.0))],
        vec![[0, 1]],
        vec![plain_beam()],
        vec![0],
        vec![fixed_support()],
    );
    let loading = no_loads();
    assert!(matches!(
        sys.matrix_stiffness_method_first_order(&loading),
        Err(AnalysisError::InvalidGeometry)
    ));
}

#[test]
fn second_order_amplifies_moment() {
    // A compressed cantilever: the second-order root moment must come out
    // well beyond the first-order one.
    let sys = cantilever(3.0);
    let loading = SystemLoading::new(
        vec![1],
        vec![point_load(-3000.0, -10.0, 0.0)],
        vec![],
        vec![],
    );
    let first = solved(&sys, &loading);
    let second = match sys.matrix_stiffness_method_second_order(&loading) {
        Ok(t) => t,
        Err(e) => panic!("unexpected second-order failure: {:?}", e),
    };
    let m1 = first.get_results()[0].get_rsks()[2].0;
    let m2 = second.get_results()[0].get_rsks()[2].0;
    // The axial force is reported negative in compression.
    assert!(first.get_results()[0].get_rsks()[0].0 < -2999.0);
    assert!((m1 - -30.0).abs() < 1e-6);
    assert!(m2.abs() > m1.abs() + 10.0);
    assert!((m2 - -56.653899209).abs() < 1e-3);
}

#[test]
fn second_order_without_compression_matches_first_order() {
    let sys = cantilever(3.0);
    let loading = SystemLoading::new(
        vec![1],
        vec![point_load(3000.0, -10.0, 0.0)],
        vec![],
        vec![],
    );
    let first = solved(&sys, &loading);
    let second = match sys.matrix_stiffness_method_second_order(&loading) {
        Ok(t) => t,
        Err(e) => panic!("unexpected second-order failure: {:?}", e),
    };
    for k in 0..6 {
        let a = first.get_results()[0].get_rsks()[k].0;
        let b = second.get_results()[0].get_rsks()[k].0;
        assert!((a - b).abs() < 1e-12, "rsk[{}]: {} vs {}", k, a, b);
    }
}

#[test]
fn second_order_matrix_shape() {
    let sys = cantilever(3.0);
    let loading = SystemLoading::new(vec![1], vec![point_load(0.0, -10.0, 0.0)], vec![], vec![]);
    let m: Mat<R64> = match sys.matrix_stiffness_method_second_order_matrix(&loading) {
        Ok(t) => t,
        Err(e) => panic!("unexpected failure: {:?}", e),
    };
    assert_eq!(m.rows, 6);
    assert_eq!(m.cols, 6);
    // The fixed node's first degree has been eliminated to a unit pivot.
    assert_eq!(m.a[0].0, 1.0);
    assert_eq!(m.a[1].0, 0.0);
}

#[test]
fn matrix_and_cholesky_roundtrip() {
    let mut m: Mat<R64> = Mat::zeros(2, 2);
    m.set(0, 0, r(4.0));
    m.set(0, 1, r(2.0));
    m.set(1, 0, r(2.0));
    m.set(1, 1, r(3.0));
    let t = m.transpose();
    assert_eq!(t.get(1, 0).0, 2.0);
    let l = cholesky_factor(&m).expect("positive definite");
    assert!((l.get(0, 0).0 - 2.0).abs() < 1e-12);
    let x = cholesky_solve(&l, &rvec(&[8.0, 7.0]));
    // Solves [[4,2],[2,3]] x = [8,7]: x = [1.25, 1.5].
    assert!((x[0].0 - 1.25).abs() < 1e-12);
    assert!((x[1].0 - 1.5).abs() < 1e-12);
    // A matrix with a mechanism is refused.
    let mut s: Mat<R64> = Mat::zeros(2, 2);
    s.set(0, 0, r(1.0));
    assert!(cholesky_factor(&s).is_none());
}

#[test]
fn lineload_sum_per_beam() {
    let loading = SystemLoading::new(
        vec![],
        vec![],
        vec![0, 0, 1],
        vec![
            StaticLinearLineload::new_constant_load(r(2.0)),
            StaticLinearLineload::new_constant_load(r(3.0)),
            StaticLinearLineload::new_constant_load(r(4.0)),
        ],
    );
    let t0 = loading.get_total_lineload_for_beam(0);
    assert_eq!(t0.get_from_perpendicular_load().0, 5.0);
    assert_eq!(t0.get_to_perpendicular_load().0, 5.0);
    let t1 = loading.get_total_lineload_for_beam(1);
    assert_eq!(t1.get_from_perpendicular_load().0, 4.0);
    let t9 = loading.get_total_lineload_for_beam(9);
    assert_eq!(t9.get_from_perpendicular_load().0, 0.0);
}

#[test]
fn fuzzy_triangular_membership() {
    let f = FuzzyTriangular::new(r(0.0), r(2.0), r(4.0));
    let (lo, hi) = f.get_support();
    assert_eq!((lo.0, hi.0), (0.0, 4.0));
    assert_eq!(f.membership_of(r(2.0)).0, 1.0);
    assert_eq!(f.membership_of(r(1.0)).0, 0.5);
    assert_eq!(f.membership_of(r(-1.0)).0, 0.0);
    let (a, b) = f.alpha_level_support(r(0.5));
    assert!((a.0 - 1.0).abs() < 1e-12);
    assert!((b.0 - 3.0).abs() < 1e-12);
}

#[test]
fn fuzzy_trapezoidal_alpha_cut() {
    let f = FuzzyTrapezoidal::new(r(0.0), r(1.0), r(3.0), r(4.0));
    assert_eq!(f.membership_of(r(2.0)).0, 1.0);
    assert_eq!(f.membership_of(r(0.5)).0, 0.5);
    let (a, b) = f.alpha_level_support(r(0.5));
    assert!((a.0 - 0.5).abs() < 1e-12);
    assert!((b.0 - 3.5).abs() < 1e-12);
}

#[test]
fn ecdf_quantiles_and_mean() {
    let e = ExperimentalCumulativeDistributionFunction::new(rvec(&[1.0, 2.0, 3.0, 4.0]));
    assert_eq!(e.mean().0, 2.5);
    assert_eq!(e.quantile(r(0.0)).0, 1.0);
    assert_eq!(e.quantile(r(0.5)).0, 3.0);
    assert_eq!(e.quantile(r(0.95)).0, 4.0);
}

#[test]
fn ecdf_cumulative_steps() {
    let e = ExperimentalCumulativeDistributionFunction::new(rvec(&[1.0, 2.0, 3.0, 4.0]));
    let c = e.get_samples_cumulative();
    assert_eq!(c.len(), 4);
    assert_eq!(c[0][0].0, 1.0);
    assert_eq!(c[0][1].0, 0.25);
    assert_eq!(c[3][1].0, 1.0);
    assert_eq!(e.get_samples().len(), 4);
}

#[test]
fn geometry_getters() {
    let sys = cantilever(3.0);
    assert_eq!(sys.get_points().len(), 2);
    assert_eq!(sys.get_beam_from_point(0), 0);
    assert_eq!(sys.get_beam_to_point(0), 1);
    assert!((sys.get_beam_lenght(0).0 - 3.0).abs() < 1e-12);
    assert!((sys.get_beam_alpha(0).0.abs() - std::f64::consts::PI).abs() < 1e-12);
    let b = &sys.get_beams()[0];
    assert_eq!(b.get_emodul().0, E_MOD);
    assert_eq!(b.get_area().0, AREA);
    assert_eq!(b.get_ftm().0, FTM);
}

#[test]
fn beam_result_carries_its_beam() {
    let br: BeamResult<R64> = BeamResult::new(
        rvec(&[1.0, 2.0, 3.0, 4.0, 5.0, 6.0]),
        rvec(&[0.0; 6]),
        r(2.5),
        plain_beam(),
        StaticLinearLineload::new_constant_load(r(0.0)),
    );
    assert_eq!(br.get_beam_lenght().0, 2.5);
    assert_eq!(br.get_rsks()[2].0, 3.0);
    assert_eq!(br.get_rvs().len(), 6);
    assert_eq!(br.get_beam().get_area().0, AREA);
    assert_eq!(br.get_loading().get_from_perpendicular_load().0, 0.0);
}

fn hinged_end_beam() -> Beam<R64> {
    // The rotation at the beam's second end is released with a zero
    // spring: a frictionless hinge.
    Beam::new(
        Crosssection::new(r(E_MOD), r(AREA), r(FTM)),
        [false, false, false, false, false, true],
        [r(0.0); 6],
        r(0.0),
        r(0.0),
    )
}

#[test]
fn hinge_splits_fixed_fixed_beam() {
    // Two elements between two clamps, a hinge at the shared node, and a
    // central load: each half carries P/2 as a cantilever, so the clamp
    // moments are -(P/2) (L/2) = -10 and the hinge itself is moment-free.
    let sys = System::new(
        vec![
            Point::new(r(0.0), r(0.0)),
            Point::new(r(2.0), r(0.0)),
            Point::new(r(4.0), r(0.0)),
        ],
        vec![[0, 1], [1, 2]],
        vec![hinged_end_beam(), plain_beam()],
        vec![0, 2],
        vec![fixed_support(), fixed_support()],
    );
    let loading = SystemLoading::new(vec![1], vec![point_load(0.0, -10.0, 0.0)], vec![], vec![]);
    let rs = solved(&sys, &loading);
    let rsk0 = rs.get_results()[0].get_rsks();
    let rsk1 = rs.get_results()[1].get_rsks();
    assert!((rsk0[2].0 - -10.0).abs() < 1e-9);
    assert!(rsk0[5].0.abs() < 1e-9);
    assert!(rsk1[2].0.abs() < 1e-9);
    assert!((rsk1[5].0 - -10.0).abs() < 1e-9);
    // Hinge deflection: a half-span cantilever under P/2.
    let expect = 5.0 * 2.0_f64.powi(3) / (3.0 * E_MOD * FTM);
    let at_hinge = rs.get_results()[0].get_internals_at(r(2.0));
    assert!((at_hinge[4].0 - expect).abs() < expect * 1e-6);
}

#[test]
fn semi_rigid_base_softens_cantilever() {
    // The base rotation is released against a finite spring: the tip adds
    // the spring's rotation times the length to the elastic deflection.
    let c = 1.0e4;
    let beam = Beam::new(
        Crosssection::new(r(E_MOD), r(AREA), r(FTM)),
        [false, false, true, false, false, false],
        [r(0.0), r(0.0), r(c), r(0.0), r(0.0), r(0.0)],
        r(0.0),
        r(0.0),
    );
    let sys = System::new(
        vec![Point::new(r(0.0), r(0.0)), Point::new(r(3.0), r(0.0))],
        vec![[0, 1]],
        vec![beam],
        vec![0],
        vec![fixed_support()],
    );
    let loading = SystemLoading::new(vec![1], vec![point_load(0.0, -10.0, 0.0)], vec![], vec![]);
    let rs = solved(&sys, &loading);
    // The spring turns between the clamped node and the beam, so the tip
    // node's own displacement carries the extra rotation times the length.
    let tip_w = rs.get_results()[0].get_rvs()[4].0;
    let expect = 10.0 * 27.0 / (3.0 * E_MOD * FTM) + (10.0 * 3.0) * 3.0 / c;
    assert!((tip_w - expect).abs() < expect * 1e-6);
    // The statics stay determinate: the clamp still carries -P L.
    let rsk = rs.get_results()[0].get_rsks();
    assert!((rsk[2].0 - -30.0).abs() < 1e-6);
}

#[test]
fn rotational_support_spring_softens_cantilever() {
    // The same softening, expressed through the support instead: the base
    // rotation is free but held by a rotational spring.
    let c = 1.0e4;
    let sys = System::new(
        vec![Point::new(r(0.0), r(0.0)), Point::new(r(3.0), r(0.0))],
        vec![[0, 1]],
        vec![plain_beam()],
        vec![0],
        vec![Support::new(r(0.0), [false, false, true], [r(0.0), r(0.0), r(c)])],
    );
    let loading = SystemLoading::new(vec![1], vec![point_load(0.0, -10.0, 0.0)], vec![], vec![]);
    let rs = solved(&sys, &loading);
    let tip = rs.get_results()[0].get_internals_at(r(3.0));
    let expect = 10.0 * 27.0 / (3.0 * E_MOD * FTM) + (10.0 * 3.0) * 3.0 / c;
    assert!((tip[4].0 - expect).abs() < expect * 1e-6);
}

#[test]
fn hinge_at_free_end_rejected() {
    // Releasing the rotation at a node that nothing else stiffens leaves
    // that rotation exactly free: the factorization must refuse it.
    let sys = System::new(
        vec![Point::new(r(0.0), r(0.0)), Point::new(r(3.0), r(0.0))],
        vec![[0, 1]],
        vec![hinged_end_beam()],
        vec![0],
        vec![fixed_support()],
    );
    let loading = SystemLoading::new(vec![1], vec![point_load(0.0, -10.0, 0.0)], vec![], vec![]);
    assert!(matches!(
        sys.matrix_stiffness_method_first_order(&loading),
        Err(AnalysisError::SingularSystem)
    ));
}

#[test]
fn simplex_one_dimensional() {
    let res = simplex_optimization(rvec(&[-2.0]), rvec(&[2.0]), rvec(&[1.0]), |v: &Vec<R64>| {
        R64(v[0].0 * v[0].0)
    });
    assert_eq!(res.len(), 1);
    assert!(res[0].0.abs() < 1e-8);
}

#[test]
fn empty_frame_solves_to_nothing() {
    let sys: System<R64> = System::new(vec![], vec![], vec![], vec![], vec![]);
    let loading = no_loads();
    let rs = solved(&sys, &loading);
    assert_eq!(rs.get_results().len(), 0);
}

#[test]
fn ecdf_single_sample() {
    let e = ExperimentalCumulativeDistributionFunction::new(rvec(&[7.0]));
    assert_eq!(e.mean().0, 7.0);
    assert_eq!(e.quantile(r(0.0)).0, 7.0);
    assert_eq!(e.quantile(r(0.5)).0, 7.0);
    assert_eq!(e.quantile(r(1.0)).0, 7.0);
}
