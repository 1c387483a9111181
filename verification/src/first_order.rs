//! Internal forces and displacements along a solved beam's span, recovered
//! from its end state by a first-order transfer-matrix formulation.

use vstd::prelude::*;

use crate::direct_stiffness::BeamResult;
use crate::matrix::Mat;
use crate::scalar::Scalar;

verus! {

impl<S: Scalar> BeamResult<S> {
    /// The state of this beam at station `x` along its span, as the six
    /// values `[axial force, shear, moment, axial displacement, transverse
    /// displacement, rotation]`.
    pub fn get_internals_at(&self, x: S) -> (r: [S; 6])
        requires
            self.wf(),
    {
        let mut mat = self.uebertragungsmatrix_first_order(x);
        let vec = self.lastvektor_perpendicular_first_order(S::zero(), x);
        for i in 0..7usize
            invariant
                mat.wf(),
                mat.rows == 7,
                mat.cols == 7,
                vec@.len() == 7,
        {
            let cur = mat.get(i, 6);
            mat.set(i, 6, cur.plus(vec[i]));
        }
        let mut v: Vec<S> = Vec::new();
        v.push(self.rv[0]);
        v.push(self.rv[1]);
        v.push(self.rv[2]);
        v.push(self.rsk[2]);
        v.push(self.rsk[1]);
        v.push(self.rsk[0]);
        v.push(S::one());
        let v = mat.mul_vec(&v);
        [v[5], v[4], v[3], v[0], v[1], v[2]]
    }

    /// The particular contribution of the linear perpendicular line load
    /// over the stretch `[start_l, end_l]` of the span, as the seventh
    /// (homogeneous) column's summand of the transfer formulation.
    fn lastvektor_perpendicular_first_order(&self, start_l: S, end_l: S) -> (r: Vec<S>)
        ensures
            r@.len() == 7,
    {
        if start_l.eq_val(S::zero()) && end_l.eq_val(S::zero()) {
            let mut v: Vec<S> = Vec::new();
            v.push(S::zero());
            v.push(S::zero());
            v.push(S::zero());
            v.push(S::zero());
            v.push(S::zero());
            v.push(S::zero());
            v.push(S::one());
            return v;
        }
        let l = end_l.minus(start_l);
        let rezi_length = S::one().over(self.get_beam_lenght());
        let from_load = self.get_loading().get_from_perpendicular_load();
        let to_load = self.get_loading().get_to_perpendicular_load();
        let start = from_load.times(S::one().minus(start_l.times(rezi_length))).plus(
            to_load.times(start_l.times(rezi_length)),
        );
        let end = from_load.times(S::one().minus(end_l.times(rezi_length))).plus(
            to_load.times(end_l.times(rezi_length)),
        );
        let b = self.get_beam();
        let ei = b.get_emodul().times(b.get_ftm());
        let l2 = l.times(l);
        let l3 = l2.times(l);
        let l4 = l2.times(l2);
        let mut v: Vec<S> = Vec::new();
        v.push(S::zero());
        v.push(
            S::ratio(1, 30).times(start).plus(S::ratio(1, 120).times(end)).times(l4).over(ei),
        );
        v.push(
            S::ratio(1, 8).times(start).plus(S::ratio(1, 24).times(end)).times(l3).over(ei),
        );
        v.push(
            S::ratio(-1, 3).times(start).plus(S::ratio(-1, 6).times(end)).times(l2),
        );
        v.push(
            S::ratio(-1, 2).times(start).plus(S::ratio(-1, 2).times(end)).times(l),
        );
        v.push(S::zero());
        v.push(S::zero());
        v
    }

    /// The 7x7 first-order transfer matrix from the start of the span to
    /// station `dlength`: six physical state rows and one homogeneous row.
    fn uebertragungsmatrix_first_order(&self, dlength: S) -> (r: Mat<S>)
        ensures
            r.wf(),
            r.rows == 7,
            r.cols == 7,
    {
        let length = dlength;
        let b = self.get_beam();
        let ei = b.get_emodul().times(b.get_ftm());
        let ea = b.get_emodul().times(b.get_area());
        let two_ei = S::from_i64(2).times(ei);
        let six_ei = S::from_i64(6).times(ei);
        let mut m: Mat<S> = Mat::zeros(7, 7);
        m.set(0, 0, S::one());
        m.set(0, 5, length.over(ea));
        m.set(1, 1, S::one());
        m.set(1, 2, length);
        m.set(1, 3, length.neg().times(length).over(two_ei));
        m.set(1, 4, length.neg().times(length).times(length).over(six_ei));
        m.set(2, 2, S::one());
        m.set(2, 3, length.neg().over(ei));
        m.set(2, 4, length.neg().times(length).over(two_ei));
        m.set(3, 3, S::one());
        m.set(3, 4, length);
        m.set(4, 4, S::one());
        m.set(5, 5, S::one());
        m.set(6, 6, S::one());
        m
    }
}

} // verus!
