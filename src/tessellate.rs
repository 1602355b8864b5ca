use vstd::prelude::*;

use crate::error::GeometryError;
use crate::mesh::{valid_triangles, Mesh};
use crate::path::Path;

verus! {

/// Which regions of overlapping or nested sub-paths are filled.
#[derive(Clone, Copy, Debug, PartialEq, Eq, Structural)]
pub enum FillRule {
    /// A point is inside when a ray from it crosses the outline an odd number
    /// of times.
    EvenOdd,
    /// A point is inside when the outline winds around it a non-zero number
    /// of times.
    NonZero,
}

/// What tessellating a path without sub-paths yields.
#[derive(Clone, Copy, Debug, PartialEq, Eq, Structural)]
pub enum EmptyPathPolicy {
    /// Fail with `GeometryError::EmptyPath`.
    Reject,
    /// Succeed with the empty mesh.
    Accept,
}

/// Settings of a fill tessellation besides the flattening tolerance.
#[derive(Clone, Copy, Debug, PartialEq, Eq, Structural)]
pub struct FillSettings {
    pub fill_rule: FillRule,
    pub empty_path: EmptyPathPolicy,
}

impl Default for FillSettings {
    /// Even-odd filling, and an empty path is an error.
    fn default() -> (s: FillSettings)
        ensures
            s.fill_rule == FillRule::EvenOdd,
            s.empty_path == EmptyPathPolicy::Reject,
    {
        FillSettings { fill_rule: FillRule::EvenOdd, empty_path: EmptyPathPolicy::Reject }
    }
}

/// What the planar sweep handed back for a path.
pub enum FillOutcome<V> {
    /// Vertex and index buffers.
    Filled(Vec<V>, Vec<u16>),
    /// The sweep gave up on the geometry.
    Failed,
}

/// The mesh for `path` from the sweep's outcome, under the empty-path
/// policy. A path without sub-paths is decided by the policy alone;
/// otherwise a failed sweep, or buffers that are not a valid triangle list,
/// give `TessellationFailure`, and valid buffers become the mesh unchanged.
pub fn mesh_from_fill<P, V>(
    path: &Path<P>,
    empty_path: EmptyPathPolicy,
    outcome: FillOutcome<V>,
) -> (r: Result<Mesh<V>, GeometryError>)
    ensures
        path@.len() == 0 && empty_path == EmptyPathPolicy::Reject ==> r == Err::<
            Mesh<V>,
            GeometryError,
        >(GeometryError::EmptyPath),
        path@.len() == 0 && empty_path == EmptyPathPolicy::Accept ==> r is Ok
            && r->Ok_0.vertex_seq().len() == 0 && r->Ok_0.index_seq().len() == 0,
        path@.len() > 0 && outcome is Failed ==> r == Err::<Mesh<V>, GeometryError>(
            GeometryError::TessellationFailure,
        ),
        path@.len() > 0 ==> (outcome matches FillOutcome::Filled(vs, ixs) ==> (if valid_triangles(
            ixs@,
            vs@.len(),
        ) {
            r is Ok && r->Ok_0.vertex_seq() == vs@ && r->Ok_0.index_seq() == ixs@
        } else {
            r == Err::<Mesh<V>, GeometryError>(GeometryError::TessellationFailure)
        })),
{
    if path.is_empty() {
        match empty_path {
            EmptyPathPolicy::Reject => Err(GeometryError::EmptyPath),
            EmptyPathPolicy::Accept => Ok(Mesh::empty()),
        }
    } else {
        match outcome {
            FillOutcome::Filled(vertices, indices) => Mesh::from_buffers(vertices, indices),
            FillOutcome::Failed => Err(GeometryError::TessellationFailure),
        }
    }
}

} // verus!
