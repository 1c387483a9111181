//! The value objects a frame analysis is built from: nodes, cross-sections,
//! beams with elastic end releases, supports, the assembled `System`, and
//! the loading that is applied to it.

use vstd::prelude::*;

use crate::scalar::Scalar;

verus! {

/// A support at one node: its orientation against the global frame, which
/// of the three nodal directions are free, and the spring stiffness used
/// for a direction that is free but elastically held.
pub struct Support<S> {
    pub alpha: S,
    pub is_free: [bool; 3],
    pub federnach: [S; 3],
}

impl<S: Scalar> Support<S> {
    pub fn new(alpha: S, is_free: [bool; 3], federnach: [S; 3]) -> (r: Self)
        ensures
            r.alpha == alpha,
            r.is_free == is_free,
            r.federnach == federnach,
    {
        Support { alpha, is_free, federnach }
    }

    pub fn get_alpha(&self) -> (r: S)
        ensures
            r == self.alpha,
    {
        self.alpha
    }

    pub fn get_free_dofs(&self) -> (r: &[bool; 3])
        ensures
            r == &self.is_free,
    {
        &self.is_free
    }

    pub fn get_feder(&self) -> (r: &[S; 3])
        ensures
            r == &self.federnach,
    {
        &self.federnach
    }
}

/// A node location in global coordinates.
#[derive(Clone, Copy)]
pub struct Point<S> {
    pub x: S,
    pub y: S,
}

impl<S: Scalar> Point<S> {
    pub fn new(x: S, y: S) -> (r: Self)
        ensures
            r.x == x,
            r.y == y,
    {
        Point { x, y }
    }
}

/// A cross-section: Young's modulus, area and second moment of area.
#[derive(Clone, Copy)]
pub struct Crosssection<S> {
    pub emodul: S,
    pub area: S,
    pub ftm: S,
}

impl<S: Scalar> Crosssection<S> {
    pub fn new(emodul: S, area: S, ftm: S) -> (r: Self)
        ensures
            r.emodul == emodul,
            r.area == area,
            r.ftm == ftm,
    {
        Crosssection { emodul, area, ftm }
    }
}

/// A beam: its cross-section, which of its six local end degrees of freedom
/// are elastically released rather than rigidly connected, the spring
/// stiffness of each released degree, and the rotation of the release frame
/// at either end.
#[derive(Clone, Copy)]
pub struct Beam<S> {
    pub crosssection: Crosssection<S>,
    pub dof: [bool; 6],
    pub dofstiffness: [S; 6],
    pub start_dof_alpha: S,
    pub end_dof_alpha: S,
}

impl<S: Scalar> Beam<S> {
    pub fn new(cross: Crosssection<S>, dof: [bool; 6], dofstiffness: [S; 6], start: S, end: S) -> (r: Beam<S>)
        ensures
            r.crosssection == cross,
            r.dof == dof,
            r.dofstiffness == dofstiffness,
            r.start_dof_alpha == start,
            r.end_dof_alpha == end,
    {
        Beam {
            crosssection: cross,
            dof: dof,
            dofstiffness: dofstiffness,
            start_dof_alpha: start,
            end_dof_alpha: end,
        }
    }

    pub fn get_emodul(&self) -> (r: S)
        ensures
            r == self.crosssection.emodul,
    {
        self.crosssection.emodul
    }

    pub fn get_area(&self) -> (r: S)
        ensures
            r == self.crosssection.area,
    {
        self.crosssection.area
    }

    pub fn get_ftm(&self) -> (r: S)
        ensures
            r == self.crosssection.ftm,
    {
        self.crosssection.ftm
    }

    pub fn get_start_alpha(&self) -> (r: S)
        ensures
            r == self.start_dof_alpha,
    {
        self.start_dof_alpha
    }

    pub fn get_end_alpha(&self) -> (r: S)
        ensures
            r == self.end_dof_alpha,
    {
        self.end_dof_alpha
    }

    pub fn get_dofs(&self) -> (r: &[bool; 6])
        ensures
            r == &self.dof,
    {
        &self.dof
    }

    pub fn get_dofstiffness(&self) -> (r: &[S; 6])
        ensures
            r == &self.dofstiffness,
    {
        &self.dofstiffness
    }
}

/// A frame: nodes, beams with their endpoint node indices (parallel
/// arrays), and supports with their node indices (parallel arrays).
pub struct System<S> {
    pub points: Vec<Point<S>>,
    pub beam_points: Vec<[usize; 2]>,
    pub beams: Vec<Beam<S>>,
    pub support_points: Vec<usize>,
    pub supports: Vec<Support<S>>,
}

impl<S: Scalar> System<S> {
    /// The parallel arrays agree in length and every node index points at a
    /// node: the shape every analysis of this frame relies on.
    pub open spec fn wf(self) -> bool {
        &&& self.beam_points@.len() == self.beams@.len()
        &&& self.support_points@.len() == self.supports@.len()
        &&& forall|b: int|
            0 <= b < self.beam_points@.len()
                ==> (#[trigger] self.beam_points@[b])[0] < self.points@.len()
                    && self.beam_points@[b][1] < self.points@.len()
        &&& forall|s: int|
            0 <= s < self.support_points@.len()
                ==> #[trigger] self.support_points@[s] < self.points@.len()
    }

    pub fn new(
        points: Vec<Point<S>>,
        beam_points: Vec<[usize; 2]>,
        beams: Vec<Beam<S>>,
        support_points: Vec<usize>,
        supports: Vec<Support<S>>,
    ) -> (r: Self)
        ensures
            r.points == points,
            r.beam_points == beam_points,
            r.beams == beams,
            r.support_points == support_points,
            r.supports == supports,
    {
        System { points, beam_points, beams, support_points, supports }
    }

    pub fn get_points(&self) -> (r: &Vec<Point<S>>)
        ensures
            r == &self.points,
    {
        &self.points
    }

    pub fn get_beam_points(&self) -> (r: &Vec<[usize; 2]>)
        ensures
            r == &self.beam_points,
    {
        &self.beam_points
    }

    pub fn get_beams(&self) -> (r: &Vec<Beam<S>>)
        ensures
            r == &self.beams,
    {
        &self.beams
    }

    pub fn get_support_points(&self) -> (r: &Vec<usize>)
        ensures
            r == &self.support_points,
    {
        &self.support_points
    }

    pub fn get_supports(&self) -> (r: &Vec<Support<S>>)
        ensures
            r == &self.supports,
    {
        &self.supports
    }

    /// The distance between the two endpoints of beam `beamindex`.
    pub fn get_beam_lenght(&self, beamindex: usize) -> S
        requires
            self.wf(),
            beamindex < self.beam_points@.len(),
    {
        let p: [usize; 2] = self.beam_points[beamindex];
        let point_one = &self.points[p[0]];
        let point_two = &self.points[p[1]];
        let dx = point_one.x.minus(point_two.x);
        let dy = point_one.y.minus(point_two.y);
        dx.times(dx).plus(dy.times(dy)).sqrt()
    }

    /// The orientation angle of beam `beamindex`: the angle of the vector
    /// that runs from its second endpoint to its first, which is the
    /// convention every transform of this library is built around.
    pub fn get_beam_alpha(&self, beamindex: usize) -> S
        requires
            self.wf(),
            beamindex < self.beam_points@.len(),
    {
        let p: [usize; 2] = self.beam_points[beamindex];
        let point_one = &self.points[p[0]];
        let point_two = &self.points[p[1]];
        point_one.y.minus(point_two.y).atan2(point_one.x.minus(point_two.x))
    }

    pub fn get_beam_from_point(&self, beamindex: usize) -> (r: usize)
        requires
            beamindex < self.beam_points@.len(),
        ensures
            r == self.beam_points@[beamindex as int][0],
    {
        self.beam_points[beamindex][0]
    }

    pub fn get_beam_to_point(&self, beamindex: usize) -> (r: usize)
        requires
            beamindex < self.beam_points@.len(),
        ensures
            r == self.beam_points@[beamindex as int][1],
    {
        self.beam_points[beamindex][1]
    }
}

/// Nodal loads bound to node indices and line loads bound to beam indices,
/// as parallel arrays; several line loads may point at one beam and are
/// summed when that beam is assembled.
pub struct SystemLoading<S> {
    pub loaded_points: Vec<usize>,
    pub staticloads: Vec<StaticLoad<S>>,
    pub loaded_beams: Vec<usize>,
    pub lineloads: Vec<StaticLinearLineload<S>>,
}

impl<S: Scalar> SystemLoading<S> {
    /// The parallel arrays agree in length.
    pub open spec fn wf(self) -> bool {
        &&& self.staticloads@.len() == self.loaded_points@.len()
        &&& self.lineloads@.len() == self.loaded_beams@.len()
    }

    /// Every loaded node index points at a node of a frame with `npoints`
    /// nodes.
    pub open spec fn points_in_range(self, npoints: nat) -> bool {
        forall|i: int|
            0 <= i < self.loaded_points@.len() ==> #[trigger] self.loaded_points@[i] < npoints
    }

    pub fn new(
        loaded_points: Vec<usize>,
        staticloads: Vec<StaticLoad<S>>,
        loaded_beams: Vec<usize>,
        lineloads: Vec<StaticLinearLineload<S>>,
    ) -> (r: Self)
        ensures
            r.loaded_points == loaded_points,
            r.staticloads == staticloads,
            r.loaded_beams == loaded_beams,
            r.lineloads == lineloads,
    {
        SystemLoading { loaded_points, staticloads, loaded_beams, lineloads }
    }

    pub fn get_static_loads(&self) -> (r: &Vec<StaticLoad<S>>)
        ensures
            r == &self.staticloads,
    {
        &self.staticloads
    }

    pub fn get_static_load_points(&self) -> (r: &Vec<usize>)
        ensures
            r == &self.loaded_points,
    {
        &self.loaded_points
    }

    /// The componentwise sum of every line load bound to beam `beamindex`.
    pub fn get_total_lineload_for_beam(&self, beamindex: usize) -> StaticLinearLineload<S>
        requires
            self.wf(),
    {
        let mut res: StaticLinearLineload<S> = StaticLinearLineload::new_constant_load(S::zero());
        let n: usize = self.loaded_beams.len();
        for i in 0..n
            invariant
                self.wf(),
                self.loaded_beams@.len() == n,
        {
            if self.loaded_beams[i] == beamindex {
                res.add_mut(&self.lineloads[i]);
            }
        }
        res
    }
}

/// A nodal load: two global force components and a moment.
pub struct StaticLoad<S> {
    pub loading: [S; 3],
}

impl<S: Scalar> StaticLoad<S> {
    pub fn new(global_x: S, global_y: S, moment: S) -> (r: Self)
        ensures
            r.loading@[0] == global_x,
            r.loading@[1] == global_y,
            r.loading@[2] == moment,
    {
        StaticLoad { loading: [global_x, global_y, moment] }
    }

    pub fn get_loading(&self) -> (r: [S; 3])
        ensures
            r == self.loading,
    {
        self.loading
    }
}

/// A linearly varying transverse line load along a beam, stored as four
/// components of which the last two carry the perpendicular intensity at
/// the start and at the end of the beam.
#[derive(Clone)]
pub struct StaticLinearLineload<S> {
    pub loading: [S; 4],
}

impl<S: Scalar> StaticLinearLineload<S> {
    /// The constant transverse load of intensity `value`.
    pub fn new_constant_load(value: S) -> (r: Self)
        ensures
            r.loading@[2] == value,
            r.loading@[3] == value,
    {
        StaticLinearLineload { loading: [S::zero(), S::zero(), value, value] }
    }

    pub fn get_from_perpendicular_load(&self) -> (r: S)
        ensures
            r == self.loading@[2],
    {
        self.loading[2]
    }

    pub fn get_to_perpendicular_load(&self) -> (r: S)
        ensures
            r == self.loading@[3],
    {
        self.loading[3]
    }

    /// The componentwise sum, as a fresh value.
    pub fn add(&self, other: StaticLinearLineload<S>) -> Self {
        StaticLinearLineload {
            loading: [
                self.loading[0].plus(other.loading[0]),
                self.loading[1].plus(other.loading[1]),
                self.loading[2].plus(other.loading[2]),
                self.loading[3].plus(other.loading[3]),
            ],
        }
    }

    /// Adds `other` onto this load componentwise.
    pub fn add_mut(&mut self, other: &StaticLinearLineload<S>) {
        self.loading = [
            self.loading[0].plus(other.loading[0]),
            self.loading[1].plus(other.loading[1]),
            self.loading[2].plus(other.loading[2]),
            self.loading[3].plus(other.loading[3]),
        ];
    }
}

} // verus!
