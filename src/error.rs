use vstd::prelude::*;

verus! {

/// Failures of path construction and tessellation.
#[derive(Clone, Copy, Debug, PartialEq, Eq, Structural)]
pub enum GeometryError {
    /// A builder call that does not fit the open/closed state of the path
    /// under construction.
    InvalidPathState,
    /// The path holds no sub-path and the chosen policy rejects that.
    EmptyPath,
    /// The tessellator could not produce a consistent triangle list.
    TessellationFailure,
}

} // verus!
