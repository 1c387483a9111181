//! Structural analysis of plane beam-truss frames by the direct stiffness
//! method, with second-order (stability function) correction, semi-rigid
//! joint condensation and transfer-matrix internal-force recovery, together
//! with the derivative-free optimizers (golden section and Nelder-Mead
//! simplex) that drive fuzzy alpha-level-cut analyses of such frames.
//!
//! Every algorithm is written over an abstract [`scalar::Scalar`] type: the
//! solver, the optimizers and the fuzzy layer are verified for every
//! arithmetic a caller plugs in, and a consumer instantiates them with IEEE
//! doubles. The contracts pin down everything that does not depend on the
//! numeric values themselves: shapes and dimensions, index safety, which
//! entries move where, termination of every loop, and when an analysis is
//! answered with an error instead of a result.

pub mod scalar;
pub mod matrix;
pub mod system;
pub mod element;
pub mod direct_stiffness;
pub mod first_order;
pub mod visual;
pub mod fuzzy;
pub mod optimize;
pub mod stochastic;
