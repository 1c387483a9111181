//! The rendering boundary: anything that can draw itself as a piece of
//! source text for a drawing tool implements this.

use vstd::prelude::*;

verus! {

/// A value that can render itself into drawing-tool source text. The
/// library leaves every implementation to its consumers: what a frame or a
/// result set looks like on paper is presentation, not analysis.
pub trait Visualizeable {
    /// The drawing-tool source text for this value.
    fn visualize(&self) -> String;
}

} // verus!
