//! One beam's local view: its 6x6 local stiffness matrix and equivalent
//! load vector (first order or second order through stability functions),
//! the planar rotation transforms, and the static condensation of
//! elastically released end degrees of freedom.

use vstd::prelude::*;

use crate::matrix::Mat;
use crate::scalar::Scalar;
use crate::system::{Beam, StaticLinearLineload, Support};

verus! {

/// The planar rotation block for angle `alpha` on one 3-degree node:
/// `[[cos a, sin a, 0], [-sin a, cos a, 0], [0, 0, 1]]`.
pub(crate) fn transmatrix3x3<S: Scalar>(alpha: S) -> (r: Mat<S>)
    ensures
        r.wf(),
        r.rows == 3,
        r.cols == 3,
{
    let c = alpha.cos();
    let s = alpha.sin();
    let s_n = s.neg();
    let zero = S::zero();
    let one = S::one();
    let mut m: Mat<S> = Mat::zeros(3, 3);
    m.set(0, 0, c);
    m.set(0, 1, s);
    m.set(0, 2, zero);
    m.set(1, 0, s_n);
    m.set(1, 1, c);
    m.set(1, 2, zero);
    m.set(2, 0, zero);
    m.set(2, 1, zero);
    m.set(2, 2, one);
    m
}

/// The same rotation applied block-diagonally to both ends of a beam:
/// the two node blocks of the result are equal, entry for entry.
pub(crate) fn transmatrix6x6<S: Scalar>(alpha: S) -> (r: Mat<S>)
    ensures
        r.wf(),
        r.rows == 6,
        r.cols == 6,
        forall|i: int, j: int|
            0 <= i < 3 && 0 <= j < 3 ==> r.entry(i + 3, j + 3) == #[trigger] r.entry(i, j),
{
    let c = alpha.cos();
    let s = alpha.sin();
    let s_n = s.neg();
    let zero = S::zero();
    let one = S::one();
    let mut m: Mat<S> = Mat::zeros(6, 6);
    m.set(0, 0, c);
    m.set(0, 1, s);
    m.set(0, 2, zero);
    m.set(0, 3, zero);
    m.set(0, 4, zero);
    m.set(0, 5, zero);
    m.set(1, 0, s_n);
    m.set(1, 1, c);
    m.set(1, 2, zero);
    m.set(1, 3, zero);
    m.set(1, 4, zero);
    m.set(1, 5, zero);
    m.set(2, 0, zero);
    m.set(2, 1, zero);
    m.set(2, 2, one);
    m.set(2, 3, zero);
    m.set(2, 4, zero);
    m.set(2, 5, zero);
    m.set(3, 0, zero);
    m.set(3, 1, zero);
    m.set(3, 2, zero);
    m.set(3, 3, c);
    m.set(3, 4, s);
    m.set(3, 5, zero);
    m.set(4, 0, zero);
    m.set(4, 1, zero);
    m.set(4, 2, zero);
    m.set(4, 3, s_n);
    m.set(4, 4, c);
    m.set(4, 5, zero);
    m.set(5, 0, zero);
    m.set(5, 1, zero);
    m.set(5, 2, zero);
    m.set(5, 3, zero);
    m.set(5, 4, zero);
    m.set(5, 5, one);
    m
}

/// The common denominator of the large-argument stability functions:
/// `2 (1 - cos w) - w sin w`.
fn stability_denom<S: Scalar>(omega: S) -> S {
    S::from_i64(2).times(S::one().minus(omega.cos())).minus(omega.times(omega.sin()))
}

/// Stability function scaling the shear stiffness terms; near zero the
/// series `1 - w^2/10` sidesteps the vanishing denominator.
pub(crate) fn func_f1_p<S: Scalar>(omega: S) -> S {
    if omega.lt(S::ratio(1, 10)) {
        S::one().minus(S::ratio(1, 10).times(omega.times(omega)))
    } else {
        let denom = S::from_i64(12).times(stability_denom(omega));
        let numer = omega.times(omega).times(omega).times(omega.sin());
        numer.over(denom)
    }
}

/// Stability function scaling the shear-rotation coupling terms; the small
/// branch is `1 - w^2/60`.
pub(crate) fn func_f2_p<S: Scalar>(omega: S) -> S {
    if omega.lt(S::ratio(1, 10)) {
        S::one().minus(S::ratio(1, 60).times(omega.times(omega)))
    } else {
        let denom = S::from_i64(6).times(stability_denom(omega));
        let numer = omega.times(omega).times(S::one().minus(omega.cos()));
        numer.over(denom)
    }
}

/// Stability function scaling the own-end rotational terms; the small
/// branch is `1 - w^2/30`.
pub(crate) fn func_f3_p<S: Scalar>(omega: S) -> S {
    if omega.lt(S::ratio(1, 10)) {
        S::one().minus(S::ratio(1, 30).times(omega.times(omega)))
    } else {
        let denom = S::from_i64(4).times(stability_denom(omega));
        let numer = omega.times(omega.sin().minus(omega.times(omega.cos())));
        numer.over(denom)
    }
}

/// Stability function scaling the cross-end rotational terms; the small
/// branch is `1 + w^2/60`.
pub(crate) fn func_f4_p<S: Scalar>(omega: S) -> S {
    if omega.lt(S::ratio(1, 10)) {
        S::one().plus(S::ratio(1, 60).times(omega.times(omega)))
    } else {
        let denom = S::from_i64(2).times(stability_denom(omega));
        let numer = omega.times(omega.minus(omega.sin()));
        numer.over(denom)
    }
}

impl<S: Scalar> Support<S> {
    /// The support's own 3x3 stiffness contribution: the spring stiffness
    /// of each free direction on the diagonal, rotated by the support's
    /// orientation.
    pub fn stiffness_matrix(&self) -> (r: Mat<S>)
        ensures
            r.wf(),
            r.rows == 3,
            r.cols == 3,
    {
        let mut m: Mat<S> = Mat::zeros(3, 3);
        if self.is_free[0] {
            m.set(0, 0, self.federnach[0]);
        }
        if self.is_free[1] {
            m.set(1, 1, self.federnach[1]);
        }
        if self.is_free[2] {
            m.set(2, 2, self.federnach[2]);
        }
        let t = transmatrix3x3(self.alpha);
        t.transpose().mul_mat(&m).mul_mat(&t)
    }
}

/// The equivalent nodal load vector of a linear transverse line load that
/// runs from `q_from` at the start of a beam of length `lenght` to `q_to`
/// at its end.
fn equivalent_load_vector<S: Scalar>(lenght: S, lineload: &StaticLinearLineload<S>) -> (r: Vec<S>)
    ensures
        r@.len() == 6,
{
    let q_from = lineload.get_from_perpendicular_load();
    let q_to = lineload.get_to_perpendicular_load();
    let mut v: Vec<S> = Vec::new();
    v.push(S::zero());
    v.push(
        lenght.neg().over(S::from_i64(20)).times(
            S::from_i64(7).times(q_from).plus(S::from_i64(3).times(q_to)),
        ),
    );
    v.push(
        lenght.neg().times(lenght).over(S::from_i64(60)).times(
            S::from_i64(3).times(q_from).plus(S::from_i64(2).times(q_to)),
        ),
    );
    v.push(S::zero());
    v.push(
        lenght.neg().over(S::from_i64(20)).times(
            S::from_i64(3).times(q_from).plus(S::from_i64(7).times(q_to)),
        ),
    );
    v.push(
        lenght.times(lenght).over(S::from_i64(60)).times(
            S::from_i64(2).times(q_from).plus(S::from_i64(3).times(q_to)),
        ),
    );
    v
}

/// Fills the bending block of the local stiffness matrix, each group of
/// entries scaled by its stability factor (all four are one in first
/// order), and the axial block, which no stability factor touches. The
/// result is symmetric, entry for entry.
fn fill_local_stiffness<S: Scalar>(m: &mut Mat<S>, lenght: S, ea: S, ei: S, f1: S, f2: S, f3: S, f4: S)
    requires
        old(m).wf(),
        old(m).rows == 6,
        old(m).cols == 6,
    ensures
        final(m).wf(),
        final(m).rows == 6,
        final(m).cols == 6,
        forall|i: int, j: int|
            0 <= i < 6 && 0 <= j < 6 ==> final(m).entry(i, j) == final(m).entry(j, i),
{
    let l2 = lenght.times(lenght);
    let l3 = l2.times(lenght);
    let axial = ea.over(lenght);
    let axial_n = ea.neg().over(lenght);
    let shear = S::from_i64(12).times(ei).over(l3).times(f1);
    let shear_n = S::from_i64(12).times(ei).over(l3).neg().times(f1);
    let couple = S::from_i64(6).times(ei).over(l2).times(f2);
    let couple_n = S::from_i64(6).times(ei).over(l2).neg().times(f2);
    let rot_own = S::from_i64(4).times(ei).over(lenght).times(f3);
    let rot_cross = S::from_i64(2).times(ei).over(lenght).times(f4);
    let zero = S::zero();

    m.set(0, 1, zero);
    m.set(0, 2, zero);
    m.set(0, 4, zero);
    m.set(0, 5, zero);
    m.set(1, 0, zero);
    m.set(1, 3, zero);
    m.set(2, 0, zero);
    m.set(2, 3, zero);
    m.set(3, 1, zero);
    m.set(3, 2, zero);
    m.set(3, 4, zero);
    m.set(3, 5, zero);
    m.set(4, 0, zero);
    m.set(4, 3, zero);
    m.set(5, 0, zero);
    m.set(5, 3, zero);

    m.set(0, 0, axial);
    m.set(0, 3, axial_n);
    m.set(3, 0, axial_n);
    m.set(3, 3, axial);

    m.set(1, 1, shear);
    m.set(1, 2, couple);
    m.set(1, 4, shear_n);
    m.set(1, 5, couple);

    m.set(2, 1, couple);
    m.set(2, 2, rot_own);
    m.set(2, 4, couple_n);
    m.set(2, 5, rot_cross);

    m.set(4, 1, shear_n);
    m.set(4, 2, couple_n);
    m.set(4, 4, shear);
    m.set(4, 5, couple_n);

    m.set(5, 1, couple);
    m.set(5, 2, rot_cross);
    m.set(5, 4, couple_n);
    m.set(5, 5, rot_own);
}

impl<S: Scalar> Beam<S> {
    /// The first-order local stiffness matrix and equivalent load vector of
    /// this beam, with every elastically released degree of freedom already
    /// condensed out.
    pub fn local_stiffness_and_load(&self, lenght: S, lineload: Option<StaticLinearLineload<S>>) -> (r: (Mat<S>, Vec<S>))
        ensures
            r.0.wf(),
            r.0.rows == 6,
            r.0.cols == 6,
            r.1@.len() == 6,
    {
        let lineload = match lineload {
            None => StaticLinearLineload::new_constant_load(S::zero()),
            Some(t) => t,
        };
        let res_vec = equivalent_load_vector(lenght, &lineload);
        let ei = self.get_emodul().times(self.get_ftm());
        let ea = self.get_emodul().times(self.get_area());
        let mut res_mat: Mat<S> = Mat::zeros(6, 6);
        fill_local_stiffness(
            &mut res_mat,
            lenght,
            ea,
            ei,
            S::one(),
            S::one(),
            S::one(),
            S::one(),
        );
        let (res_vec, res_mat) = self.local_discontinuity(lenght, res_vec, res_mat);
        (res_mat, res_vec)
    }

    /// The second-order local stiffness matrix and equivalent load vector,
    /// the bending block scaled by the stability functions of the axial
    /// force `normal_force` (compression negative); a tensile or vanishing
    /// axial force degenerates to the first-order matrix.
    pub fn local_stiffness_and_load_second_order(&self, lenght: S, normal_force: S, lineload: Option<StaticLinearLineload<S>>) -> (r: (Mat<S>, Vec<S>))
        ensures
            r.0.wf(),
            r.0.rows == 6,
            r.0.cols == 6,
            r.1@.len() == 6,
    {
        let lineload = match lineload {
            None => StaticLinearLineload::new_constant_load(S::zero()),
            Some(t) => t,
        };
        let ei = self.get_emodul().times(self.get_ftm());
        let ea = self.get_emodul().times(self.get_area());
        let omega = if normal_force.lt(S::zero()) {
            lenght.times(normal_force.neg().over(ei).sqrt())
        } else {
            S::zero()
        };
        let f1 = func_f1_p(omega);
        let f2 = func_f2_p(omega);
        let f3 = func_f3_p(omega);
        let f4 = func_f4_p(omega);
        let res_vec = equivalent_load_vector(lenght, &lineload);
        let mut res_mat: Mat<S> = Mat::zeros(6, 6);
        fill_local_stiffness(&mut res_mat, lenght, ea, ei, f1, f2, f3, f4);
        let (res_vec, res_mat) = self.local_discontinuity(lenght, res_vec, res_mat);
        (res_mat, res_vec)
    }

    /// Condenses every released local degree of freedom out of the local
    /// stiffness and load: for each flagged degree, rotate into the frame
    /// of the release, subtract the exact rank-one correction of static
    /// condensation against the release's spring, and rotate back. The
    /// degrees are processed in index order, each against the then-current
    /// matrix.
    pub fn local_discontinuity(&self, lenght: S, res_vec: Vec<S>, res_mat: Mat<S>) -> (r: (Vec<S>, Mat<S>))
        requires
            res_mat.wf(),
            res_mat.rows == 6,
            res_mat.cols == 6,
            res_vec@.len() == 6,
        ensures
            r.0@.len() == 6,
            r.1.wf(),
            r.1.rows == 6,
            r.1.cols == 6,
    {
        let mut res_vec = res_vec;
        let mut res_mat = res_mat;
        for i in 0..6usize
            invariant
                res_mat.wf(),
                res_mat.rows == 6,
                res_mat.cols == 6,
                res_vec@.len() == 6,
        {
            if self.dof[i] {
                let talpha = if i < 3 {
                    self.get_start_alpha()
                } else {
                    self.get_end_alpha()
                };
                let t = transmatrix6x6(talpha);
                // Into the release's frame.
                res_mat = t.transpose().mul_mat(&res_mat).mul_mat(&t);
                res_vec = t.transpose().mul_vec(&res_vec);
                let m = res_mat.row(i);
                let k = res_mat.get(i, i);
                let f = res_vec[i];
                let uh = S::one().over(k.plus(self.dofstiffness[i]));
                // Rank-one condensation of the released degree.
                for r in 0..6usize
                    invariant
                        res_mat.wf(),
                        res_mat.rows == 6,
                        res_mat.cols == 6,
                        m@.len() == 6,
                {
                    for c in 0..6usize
                        invariant
                            res_mat.wf(),
                            res_mat.rows == 6,
                            res_mat.cols == 6,
                            m@.len() == 6,
                            r < 6,
                    {
                        let cur = res_mat.get(r, c);
                        res_mat.set(r, c, cur.minus(uh.times(m[r].times(m[c]))));
                    }
                }
                let uf = uh.times(f);
                for c in 0..6usize
                    invariant
                        res_vec@.len() == 6,
                        m@.len() == 6,
                {
                    let cur = res_vec[c];
                    res_vec.set(c, cur.minus(uf.times(m[c])));
                }
                // Back into the beam's local frame.
                res_vec = t.mul_vec(&res_vec);
                res_mat = t.mul_mat(&res_mat).mul_mat(&t.transpose());
            }
        }
        (res_vec, res_mat)
    }
}

} // verus!
