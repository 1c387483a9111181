//! The direct stiffness solver: assembly of the global stiffness matrix and
//! load vector, boundary conditions, the Cholesky solve, and recovery of
//! each beam's end forces, in first order and with the single-pass
//! second-order correction.

use vstd::prelude::*;

use crate::matrix::{cholesky_factor, cholesky_solve, vec_plus, Mat};
use crate::element::transmatrix6x6;
use crate::scalar::Scalar;
use crate::system::{Beam, StaticLinearLineload, System, SystemLoading};

verus! {

/// Why an analysis was refused instead of answered.
#[derive(Clone, Copy, Debug, PartialEq, Eq)]
pub enum AnalysisError {
    /// An index of the system or its loading points outside the frame, a
    /// parallel array disagrees in length, a beam has no positive length,
    /// or the frame is too large for the machine's address space.
    InvalidGeometry,
    /// The assembled stiffness matrix is not positive definite: the frame
    /// is kinematically unstable or inconsistently constrained.
    SingularSystem,
}

/// One solved beam: its six end forces in the engineering sign convention,
/// its six local end displacements, and everything needed to answer
/// internal-force queries along the span later: length, the beam's own
/// data, and the resolved total line load.
pub struct BeamResult<S> {
    pub rsk: Vec<S>,
    pub rv: Vec<S>,
    pub lenght: S,
    pub beam: Beam<S>,
    pub loading: StaticLinearLineload<S>,
}

impl<S: Scalar> BeamResult<S> {
    /// Both state vectors carry one entry per local degree of freedom.
    pub open spec fn wf(self) -> bool {
        self.rsk@.len() == 6 && self.rv@.len() == 6
    }

    pub fn new(rsk: Vec<S>, rv: Vec<S>, lenght: S, beam: Beam<S>, loading: StaticLinearLineload<S>) -> (r: Self)
        requires
            rsk@.len() == 6,
            rv@.len() == 6,
        ensures
            r.wf(),
            r.rsk == rsk,
            r.rv == rv,
            r.lenght == lenght,
            r.beam == beam,
            r.loading == loading,
    {
        BeamResult { rsk, rv, lenght, beam, loading }
    }

    pub fn get_rsks(&self) -> (r: &Vec<S>)
        ensures
            r == &self.rsk,
    {
        &self.rsk
    }

    pub fn get_rvs(&self) -> (r: &Vec<S>)
        ensures
            r == &self.rv,
    {
        &self.rv
    }

    pub fn get_beam_lenght(&self) -> (r: S)
        ensures
            r == self.lenght,
    {
        self.lenght
    }

    pub fn get_beam(&self) -> (r: &Beam<S>)
        ensures
            r == &self.beam,
    {
        &self.beam
    }

    pub fn get_loading(&self) -> (r: &StaticLinearLineload<S>)
        ensures
            r == &self.loading,
    {
        &self.loading
    }
}

/// The solved state of every beam of a frame, index-aligned with
/// `System::beams`.
pub struct BeamResultSet<S> {
    pub res: Vec<BeamResult<S>>,
}

impl<S: Scalar> BeamResultSet<S> {
    /// Every member result carries full six-entry state vectors.
    pub open spec fn wf(self) -> bool {
        forall|i: int| 0 <= i < self.res@.len() ==> (#[trigger] self.res@[i]).wf()
    }

    pub fn new(res: Vec<BeamResult<S>>) -> (r: Self)
        ensures
            r.res == res,
    {
        BeamResultSet { res }
    }

    pub fn get_results(&self) -> (r: &Vec<BeamResult<S>>)
        ensures
            r == &self.res,
    {
        &self.res
    }
}

impl<S: Scalar> Beam<S> {
    /// The end forces of this beam under the solved local end displacement
    /// vector, flipped into the engineering ("material testing") sign
    /// convention — a compressed member reports a negative axial force,
    /// which is also what the second-order pass keys on — and packaged
    /// with everything later internal-force queries need.
    fn local_mech_boundary_forces(&self, lenght: S, lineload: Option<StaticLinearLineload<S>>, local_vector: Vec<S>) -> (r: BeamResult<S>)
        requires
            local_vector@.len() == 6,
        ensures
            r.wf(),
            r.beam == *self,
    {
        let (stiff, load_vec) = self.local_stiffness_and_load(lenght, lineload.clone());
        let mut rsk = vec_plus(&stiff.mul_vec(&local_vector), &load_vec);
        rsk.set(1, rsk[1].neg());
        rsk.set(3, rsk[3].neg());
        rsk.set(5, rsk[5].neg());
        let ll = match lineload {
            None => StaticLinearLineload::new_constant_load(S::zero()),
            Some(t) => t,
        };
        BeamResult::new(rsk, local_vector, lenght, *self, ll)
    }

    /// As `local_mech_boundary_forces`, but with the second-order local
    /// stiffness under the axial force `normal_component`.
    fn local_mech_boundary_forces_second_order(&self, lenght: S, lineload: Option<StaticLinearLineload<S>>, local_vector: Vec<S>, normal_component: S) -> (r: BeamResult<S>)
        requires
            local_vector@.len() == 6,
        ensures
            r.wf(),
            r.beam == *self,
    {
        let (stiff, load_vec) = self.local_stiffness_and_load_second_order(
            lenght,
            normal_component,
            lineload.clone(),
        );
        let mut rsk = vec_plus(&stiff.mul_vec(&local_vector), &load_vec);
        rsk.set(1, rsk[1].neg());
        rsk.set(3, rsk[3].neg());
        rsk.set(5, rsk[5].neg());
        let ll = match lineload {
            None => StaticLinearLineload::new_constant_load(S::zero()),
            Some(t) => t,
        };
        BeamResult::new(rsk, local_vector, lenght, *self, ll)
    }
}

/// Adds one beam's global 6x6 stiffness block and load contribution into
/// the global matrix and load vector at the slots of its two endpoints.
fn scatter_beam<S: Scalar>(steif: &mut Mat<S>, last: &mut Vec<S>, from: usize, to: usize, f: &Mat<S>, lv: &Vec<S>)
    requires
        old(steif).wf(),
        old(steif).rows == old(steif).cols,
        old(last)@.len() == old(steif).rows,
        3 * from + 3 <= old(steif).rows,
        3 * to + 3 <= old(steif).rows,
        f.wf(),
        f.rows == 6,
        f.cols == 6,
        lv@.len() == 6,
    ensures
        final(steif).wf(),
        final(steif).same_shape(*old(steif)),
        final(last)@.len() == old(last)@.len(),
{
    for i in 0..3usize
        invariant
            steif.wf(),
            steif.rows == old(steif).rows,
            steif.cols == old(steif).cols,
            steif.rows == steif.cols,
            last@.len() == steif.rows,
            3 * from + 3 <= steif.rows,
            3 * to + 3 <= steif.rows,
            f.wf(),
            f.rows == 6,
            f.cols == 6,
            lv@.len() == 6,
    {
        for j in 0..3usize
            invariant
                steif.wf(),
                steif.rows == old(steif).rows,
                steif.cols == old(steif).cols,
                steif.rows == steif.cols,
                last@.len() == steif.rows,
                3 * from + 3 <= steif.rows,
                3 * to + 3 <= steif.rows,
                f.wf(),
                f.rows == 6,
                f.cols == 6,
                lv@.len() == 6,
                i < 3,
        {
            let cur = steif.get(from * 3 + i, from * 3 + j);
            steif.set(from * 3 + i, from * 3 + j, cur.plus(f.get(i, j)));
            let cur = steif.get(from * 3 + i, to * 3 + j);
            steif.set(from * 3 + i, to * 3 + j, cur.plus(f.get(i, j + 3)));
            let cur = steif.get(to * 3 + i, from * 3 + j);
            steif.set(to * 3 + i, from * 3 + j, cur.plus(f.get(i + 3, j)));
            let cur = steif.get(to * 3 + i, to * 3 + j);
            steif.set(to * 3 + i, to * 3 + j, cur.plus(f.get(i + 3, j + 3)));
        }
        let cur = last[from * 3 + i];
        last.set(from * 3 + i, cur.minus(lv[i]));
        let cur = last[to * 3 + i];
        last.set(to * 3 + i, cur.minus(lv[i + 3]));
    }
}

impl<S: Scalar> System<S> {
    /// The shape under which an analysis can run at all: well-formed
    /// parallel arrays, every index inside the frame, and a global system
    /// small enough for the machine.
    pub open spec fn solvable_shape(&self, loading: &SystemLoading<S>) -> bool {
        &&& self.wf()
        &&& loading.wf()
        &&& loading.points_in_range(self.points@.len() as nat)
        &&& 3 * self.points@.len() <= usize::MAX
        &&& (3 * self.points@.len()) * (3 * self.points@.len()) <= usize::MAX
    }

    /// Decides `solvable_shape` at run time.
    fn geometry_ok(&self, loading: &SystemLoading<S>) -> (r: bool)
        ensures
            r == self.solvable_shape(loading),
    {
        if self.beams.len() != self.beam_points.len() {
            return false;
        }
        if self.supports.len() != self.support_points.len() {
            return false;
        }
        if loading.staticloads.len() != loading.loaded_points.len() {
            return false;
        }
        if loading.lineloads.len() != loading.loaded_beams.len() {
            return false;
        }
        let np: usize = self.points.len();
        let nb: usize = self.beam_points.len();
        for b in 0..nb
            invariant
                self.beam_points@.len() == nb,
                self.points@.len() == np,
                forall|b2: int|
                    0 <= b2 < b
                        ==> (#[trigger] self.beam_points@[b2])[0] < np
                            && self.beam_points@[b2][1] < np,
        {
            let p: [usize; 2] = self.beam_points[b];
            if p[0] >= np || p[1] >= np {
                return false;
            }
        }
        let ns: usize = self.support_points.len();
        for s in 0..ns
            invariant
                self.support_points@.len() == ns,
                self.points@.len() == np,
                forall|s2: int| 0 <= s2 < s ==> #[trigger] self.support_points@[s2] < np,
        {
            if self.support_points[s] >= np {
                return false;
            }
        }
        let nl: usize = loading.loaded_points.len();
        for i in 0..nl
            invariant
                loading.loaded_points@.len() == nl,
                self.points@.len() == np,
                forall|i2: int| 0 <= i2 < i ==> #[trigger] loading.loaded_points@[i2] < np,
        {
            if loading.loaded_points[i] >= np {
                return false;
            }
        }
        let td: usize = match np.checked_mul(3) {
            None => {
                return false;
            },
            Some(t) => t,
        };
        match td.checked_mul(td) {
            None => {
                return false;
            },
            Some(_) => {},
        }
        true
    }

    /// Every beam must span a positive length; decided at run time by the
    /// scalar's own comparison.
    fn beam_lengths_positive(&self) -> bool
        requires
            self.wf(),
    {
        let nb: usize = self.beams.len();
        for i in 0..nb
            invariant
                self.wf(),
                self.beams@.len() == nb,
        {
            let l = self.get_beam_lenght(i);
            if !S::zero().lt(l) {
                return false;
            }
        }
        true
    }

    /// Assembles every beam's first-order contribution into the global
    /// stiffness matrix and load vector.
    fn stiffness_matrix_first_order(&self, loading: &SystemLoading<S>, steif: &mut Mat<S>, last: &mut Vec<S>)
        requires
            self.wf(),
            loading.wf(),
            old(steif).wf(),
            old(steif).rows == old(steif).cols,
            old(steif).rows == 3 * self.points@.len(),
            old(last)@.len() == old(steif).rows,
        ensures
            final(steif).wf(),
            final(steif).same_shape(*old(steif)),
            final(last)@.len() == old(last)@.len(),
    {
        let nb: usize = self.beams.len();
        for i in 0..nb
            invariant
                self.wf(),
                loading.wf(),
                self.beams@.len() == nb,
                steif.wf(),
                steif.rows == old(steif).rows,
                steif.cols == old(steif).cols,
                steif.rows == steif.cols,
                steif.rows == 3 * self.points@.len(),
                last@.len() == steif.rows,
        {
            let from = self.get_beam_from_point(i);
            let to = self.get_beam_to_point(i);
            let length = self.get_beam_lenght(i);
            let alpha = self.get_beam_alpha(i);
            let lineloading = loading.get_total_lineload_for_beam(i);
            let b = &self.beams[i];
            let (stiff, load_vec) = b.local_stiffness_and_load(length, Some(lineloading));
            let t = transmatrix6x6(alpha);
            let f = t.transpose().mul_mat(&stiff).mul_mat(&t);
            let lv = t.transpose().mul_vec(&load_vec);
            scatter_beam(steif, last, from, to, &f, &lv);
        }
    }

    /// Assembles every beam's second-order contribution, each beam's
    /// stability functions driven by its entry in `normals`.
    fn stiffness_matrix_second_order(&self, loading: &SystemLoading<S>, normals: &Vec<S>, steif: &mut Mat<S>, last: &mut Vec<S>)
        requires
            self.wf(),
            loading.wf(),
            normals@.len() == self.beams@.len(),
            old(steif).wf(),
            old(steif).rows == old(steif).cols,
            old(steif).rows == 3 * self.points@.len(),
            old(last)@.len() == old(steif).rows,
        ensures
            final(steif).wf(),
            final(steif).same_shape(*old(steif)),
            final(last)@.len() == old(last)@.len(),
    {
        let nb: usize = self.beams.len();
        for i in 0..nb
            invariant
                self.wf(),
                loading.wf(),
                self.beams@.len() == nb,
                normals@.len() == nb,
                steif.wf(),
                steif.rows == old(steif).rows,
                steif.cols == old(steif).cols,
                steif.rows == steif.cols,
                steif.rows == 3 * self.points@.len(),
                last@.len() == steif.rows,
        {
            let from = self.get_beam_from_point(i);
            let to = self.get_beam_to_point(i);
            let length = self.get_beam_lenght(i);
            let alpha = self.get_beam_alpha(i);
            let lineloading = loading.get_total_lineload_for_beam(i);
            let b = &self.beams[i];
            let (stiff, load_vec) = b.local_stiffness_and_load_second_order(
                length,
                normals[i],
                Some(lineloading),
            );
            let t = transmatrix6x6(alpha);
            let f = t.transpose().mul_mat(&stiff).mul_mat(&t);
            let lv = t.transpose().mul_vec(&load_vec);
            scatter_beam(steif, last, from, to, &f, &lv);
        }
    }

    /// Adds every nodal point load into the global load vector.
    fn knotenlasten(loading: &SystemLoading<S>, last: &mut Vec<S>)
        requires
            loading.wf(),
            old(last)@.len() <= usize::MAX,
            forall|i: int|
                0 <= i < loading.loaded_points@.len()
                    ==> 3 * (#[trigger] loading.loaded_points@[i]) + 3 <= old(last)@.len(),
        ensures
            final(last)@.len() == old(last)@.len(),
    {
        let n: usize = loading.staticloads.len();
        for i in 0..n
            invariant
                loading.wf(),
                loading.staticloads@.len() == n,
                last@.len() <= usize::MAX,
                forall|i2: int|
                    0 <= i2 < loading.loaded_points@.len()
                        ==> 3 * (#[trigger] loading.loaded_points@[i2]) + 3 <= last@.len(),
                last@.len() == old(last)@.len(),
        {
            let p = loading.loaded_points[i];
            let l = &loading.staticloads[i];
            let cur = last[p * 3];
            last.set(p * 3, cur.plus(l.loading[0]));
            let cur = last[p * 3 + 1];
            last.set(p * 3 + 1, cur.plus(l.loading[1]));
            let cur = last[p * 3 + 2];
            last.set(p * 3 + 2, cur.plus(l.loading[2]));
        }
    }

    /// Works the supports in: adds each support's own (rotated) spring
    /// stiffness at its node's block, then eliminates every rigidly held
    /// direction by zeroing its row and column, placing a unit pivot and
    /// clearing its load entry.
    fn supports(&self, dofs: usize, steif: &mut Mat<S>, last: &mut Vec<S>)
        requires
            self.wf(),
            old(steif).wf(),
            old(steif).rows == old(steif).cols,
            old(steif).rows == dofs,
            old(steif).rows == 3 * self.points@.len(),
            old(last)@.len() == dofs,
        ensures
            final(steif).wf(),
            final(steif).same_shape(*old(steif)),
            final(last)@.len() == old(last)@.len(),
    {
        let ns: usize = self.supports.len();
        for si in 0..ns
            invariant
                self.wf(),
                self.supports@.len() == ns,
                steif.wf(),
                steif.rows == old(steif).rows,
                steif.cols == old(steif).cols,
                steif.rows == steif.cols,
                steif.rows == dofs,
                steif.rows == 3 * self.points@.len(),
                last@.len() == dofs,
        {
            let sup = &self.supports[si];
            let sup_point = self.support_points[si];
            let m = sup.stiffness_matrix();
            for i in 0..3usize
                invariant
                    steif.wf(),
                    steif.rows == old(steif).rows,
                    steif.cols == old(steif).cols,
                    steif.rows == steif.cols,
                    steif.rows == dofs,
                    m.wf(),
                    m.rows == 3,
                    m.cols == 3,
                    3 * sup_point + 3 <= dofs,
            {
                for j in 0..3usize
                    invariant
                        steif.wf(),
                        steif.rows == old(steif).rows,
                        steif.cols == old(steif).cols,
                        steif.rows == steif.cols,
                        steif.rows == dofs,
                        m.wf(),
                        m.rows == 3,
                        m.cols == 3,
                        3 * sup_point + 3 <= dofs,
                        i < 3,
                {
                    let cur = steif.get(sup_point * 3 + i, sup_point * 3 + j);
                    steif.set(sup_point * 3 + i, sup_point * 3 + j, cur.plus(m.get(i, j)));
                }
            }
            for j in 0..3usize
                invariant
                    steif.wf(),
                    steif.rows == old(steif).rows,
                    steif.cols == old(steif).cols,
                    steif.rows == steif.cols,
                    steif.rows == dofs,
                    last@.len() == dofs,
                    3 * sup_point + 3 <= dofs,
                    sup == &self.supports@[si as int],
            {
                if !sup.is_free[j] {
                    for k in 0..dofs
                        invariant
                            steif.wf(),
                            steif.rows == old(steif).rows,
                            steif.cols == old(steif).cols,
                            steif.rows == steif.cols,
                            steif.rows == dofs,
                            3 * sup_point + 3 <= dofs,
                            j < 3,
                    {
                        steif.set(k, sup_point * 3 + j, S::zero());
                        steif.set(sup_point * 3 + j, k, S::zero());
                    }
                    steif.set(sup_point * 3 + j, sup_point * 3 + j, S::one());
                    last.set(sup_point * 3 + j, S::zero());
                }
            }
        }
    }

    /// Runs the full first-order direct stiffness analysis.
    ///
    /// An ill-shaped input — the shape conditions of `solvable_shape`, or a
    /// beam whose computed length fails the positivity test of the scalar
    /// in use — is answered with `InvalidGeometry`; a frame whose assembled
    /// matrix fails the Cholesky positivity tests is answered with
    /// `SingularSystem`; otherwise the result carries one solved beam per
    /// member of the frame.
    pub fn matrix_stiffness_method_first_order(&self, loading: &SystemLoading<S>) -> (r: Result<BeamResultSet<S>, AnalysisError>)
        ensures
            !self.solvable_shape(loading) ==> r == Err::<BeamResultSet<S>, AnalysisError>(
                AnalysisError::InvalidGeometry,
            ),
            (match r {
                Ok(rs) => self.solvable_shape(loading) && rs.wf() && rs.res@.len()
                    == self.beams@.len() && (forall|i: int|
                    0 <= i < rs.res@.len() ==> (#[trigger] rs.res@[i]).beam == self.beams@[i]),
                Err(e) => e == AnalysisError::InvalidGeometry || (e
                    == AnalysisError::SingularSystem && self.solvable_shape(loading)),
            }),
    {
        if !self.geometry_ok(loading) {
            return Err(AnalysisError::InvalidGeometry);
        }
        if !self.beam_lengths_positive() {
            return Err(AnalysisError::InvalidGeometry);
        }
        let total_dofs: usize = self.points.len() * 3;
        let mut steif: Mat<S> = Mat::zeros(total_dofs, total_dofs);
        let mut last: Vec<S> = vec![S::zero(); total_dofs];

        self.stiffness_matrix_first_order(loading, &mut steif, &mut last);
        Self::knotenlasten(loading, &mut last);
        self.supports(total_dofs, &mut steif, &mut last);

        let g = match cholesky_factor(&steif) {
            Some(t) => t,
            None => {
                return Err(AnalysisError::SingularSystem);
            },
        };
        let result = cholesky_solve(&g, &last);

        let rs = self.recover_results(loading, &result, None);
        Ok(BeamResultSet::new(rs))
    }

    /// Runs the second-order analysis: one first-order pass estimates each
    /// beam's axial force as the mean of its two end axial forces, and the
    /// frame is re-assembled and re-solved with the stability functions
    /// those forces select. Fails exactly where the first-order pass fails,
    /// or where the corrected matrix loses positive definiteness.
    pub fn matrix_stiffness_method_second_order(&self, loading: &SystemLoading<S>) -> (r: Result<BeamResultSet<S>, AnalysisError>)
        ensures
            !self.solvable_shape(loading) ==> r == Err::<BeamResultSet<S>, AnalysisError>(
                AnalysisError::InvalidGeometry,
            ),
            (match r {
                Ok(rs) => self.solvable_shape(loading) && rs.wf() && rs.res@.len()
                    == self.beams@.len() && (forall|i: int|
                    0 <= i < rs.res@.len() ==> (#[trigger] rs.res@[i]).beam == self.beams@[i]),
                Err(e) => e == AnalysisError::InvalidGeometry || (e
                    == AnalysisError::SingularSystem && self.solvable_shape(loading)),
            }),
    {
        let first_iter = match self.matrix_stiffness_method_first_order(loading) {
            Ok(t) => t,
            Err(e) => {
                return Err(e);
            },
        };
        let normals = Self::axial_estimates(&first_iter);

        let total_dofs: usize = self.points.len() * 3;
        let mut steif: Mat<S> = Mat::zeros(total_dofs, total_dofs);
        let mut last: Vec<S> = vec![S::zero(); total_dofs];

        self.stiffness_matrix_second_order(loading, &normals, &mut steif, &mut last);
        Self::knotenlasten(loading, &mut last);
        self.supports(total_dofs, &mut steif, &mut last);

        let g = match cholesky_factor(&steif) {
            Some(t) => t,
            None => {
                return Err(AnalysisError::SingularSystem);
            },
        };
        let result = cholesky_solve(&g, &last);

        let rs = self.recover_results(loading, &result, Some(&normals));
        Ok(BeamResultSet::new(rs))
    }

    /// Assembles the second-order global matrix (after boundary
    /// conditions) without solving it: the raw object a buckling search
    /// inspects, e.g. through the sign of its determinant.
    pub fn matrix_stiffness_method_second_order_matrix(&self, loading: &SystemLoading<S>) -> (r: Result<Mat<S>, AnalysisError>)
        ensures
            !self.solvable_shape(loading) ==> r == Err::<Mat<S>, AnalysisError>(
                AnalysisError::InvalidGeometry,
            ),
            (match r {
                Ok(m) => self.solvable_shape(loading) && m.wf() && m.rows == m.cols && m.rows == 3
                    * self.points@.len(),
                Err(e) => e == AnalysisError::InvalidGeometry || (e
                    == AnalysisError::SingularSystem && self.solvable_shape(loading)),
            }),
    {
        let first_iter = match self.matrix_stiffness_method_first_order(loading) {
            Ok(t) => t,
            Err(e) => {
                return Err(e);
            },
        };
        let normals = Self::axial_estimates(&first_iter);

        let total_dofs: usize = self.points.len() * 3;
        let mut steif: Mat<S> = Mat::zeros(total_dofs, total_dofs);
        let mut last: Vec<S> = vec![S::zero(); total_dofs];

        self.stiffness_matrix_second_order(loading, &normals, &mut steif, &mut last);
        Self::knotenlasten(loading, &mut last);
        self.supports(total_dofs, &mut steif, &mut last);

        Ok(steif)
    }

    /// Each beam's representative axial force: the mean of its two end
    /// axial forces from a first-order pass.
    fn axial_estimates(first_iter: &BeamResultSet<S>) -> (r: Vec<S>)
        requires
            first_iter.wf(),
        ensures
            r@.len() == first_iter.res@.len(),
    {
        let mut normals: Vec<S> = Vec::new();
        let n: usize = first_iter.res.len();
        for i in 0..n
            invariant
                first_iter.wf(),
                first_iter.res@.len() == n,
                normals@.len() == i,
        {
            let br = &first_iter.res[i];
            normals.push(S::ratio(1, 2).times(br.rsk[0].plus(br.rsk[3])));
        }
        normals
    }

    /// Gathers each beam's end displacements out of the global solution,
    /// rotates them into the beam's local frame and recovers its end
    /// forces; with `normals` present the second-order local stiffness is
    /// used.
    fn recover_results(&self, loading: &SystemLoading<S>, result: &Vec<S>, normals: Option<&Vec<S>>) -> (r: Vec<BeamResult<S>>)
        requires
            self.wf(),
            loading.wf(),
            result@.len() == 3 * self.points@.len(),
            result@.len() <= usize::MAX,
            (match normals {
                Some(ns) => ns@.len() == self.beams@.len(),
                None => true,
            }),
        ensures
            r@.len() == self.beams@.len(),
            forall|i: int| 0 <= i < r@.len() ==> (#[trigger] r@[i]).wf(),
            forall|i: int| 0 <= i < r@.len() ==> (#[trigger] r@[i]).beam == self.beams@[i],
    {
        let mut out: Vec<BeamResult<S>> = Vec::new();
        let nb: usize = self.beams.len();
        for i in 0..nb
            invariant
                self.wf(),
                loading.wf(),
                self.beams@.len() == nb,
                result@.len() == 3 * self.points@.len(),
                result@.len() <= usize::MAX,
                (match normals {
                    Some(ns) => ns@.len() == nb,
                    None => true,
                }),
                out@.len() == i,
                forall|k: int| 0 <= k < out@.len() ==> (#[trigger] out@[k]).wf(),
                forall|k: int| 0 <= k < out@.len() ==> (#[trigger] out@[k]).beam == self.beams@[k],
        {
            let from = self.get_beam_from_point(i);
            let to = self.get_beam_to_point(i);
            let length = self.get_beam_lenght(i);
            let alpha = self.get_beam_alpha(i);

            let mut v: Vec<S> = Vec::new();
            v.push(result[from * 3]);
            v.push(result[from * 3 + 1]);
            v.push(result[from * 3 + 2]);
            v.push(result[to * 3]);
            v.push(result[to * 3 + 1]);
            v.push(result[to * 3 + 2]);

            let lineloading = loading.get_total_lineload_for_beam(i);
            let b = &self.beams[i];
            let v = transmatrix6x6(alpha).mul_vec(&v);
            let br = match normals {
                Some(ns) => b.local_mech_boundary_forces_second_order(
                    length,
                    Some(lineloading),
                    v,
                    ns[i],
                ),
                None => b.local_mech_boundary_forces(length, Some(lineloading), v),
            };
            out.push(br);
        }
        out
    }
}

} // verus!
