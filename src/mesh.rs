use vstd::prelude::*;

use crate::error::GeometryError;

verus! {

/// Indices grouped in whole triangles, each naming one of `vertex_count`
/// vertices.
pub open spec fn valid_triangles(indices: Seq<u16>, vertex_count: nat) -> bool {
    &&& indices.len() % 3 == 0
    &&& forall|i: int| 0 <= i < indices.len() ==> (#[trigger] indices[i] as nat) < vertex_count
}

/// A triangle list: vertices, and index triples into them.
pub struct Mesh<V> {
    vertices: Vec<V>,
    indices: Vec<u16>,
}

impl<V> Mesh<V> {
    #[verifier::type_invariant]
    closed spec fn inv(self) -> bool {
        valid_triangles(self.indices@, self.vertices@.len())
    }

    pub closed spec fn vertex_seq(&self) -> Seq<V> {
        self.vertices@
    }

    pub closed spec fn index_seq(&self) -> Seq<u16> {
        self.indices@
    }

    /// The mesh with no vertex and no triangle.
    pub fn empty() -> (m: Mesh<V>)
        ensures
            m.vertex_seq() == Seq::<V>::empty(),
            m.index_seq() == Seq::<u16>::empty(),
    {
        Mesh { vertices: Vec::new(), indices: Vec::new() }
    }

    /// Checks buffers produced by a tessellator: the index count must be a
    /// multiple of three and every index must name a vertex.
    pub fn from_buffers(vertices: Vec<V>, indices: Vec<u16>) -> (r: Result<Mesh<V>, GeometryError>)
        ensures
            valid_triangles(indices@, vertices@.len()) ==> r is Ok && r->Ok_0.vertex_seq()
                == vertices@ && r->Ok_0.index_seq() == indices@,
            !valid_triangles(indices@, vertices@.len()) ==> r == Err::<Mesh<V>, GeometryError>(
                GeometryError::TessellationFailure,
            ),
    {
        if indices.len() % 3 != 0 {
            return Err(GeometryError::TessellationFailure);
        }
        let n = vertices.len();
        let mut i: usize = 0;
        while i < indices.len()
            invariant
                i <= indices@.len(),
                n == vertices@.len(),
                forall|j: int| 0 <= j < i ==> (#[trigger] indices@[j] as nat) < n,
            decreases indices@.len() - i,
        {
            if indices[i] as usize >= n {
                return Err(GeometryError::TessellationFailure);
            }
            i = i + 1;
        }
        Ok(Mesh { vertices, indices })
    }

    /// The vertices, in emission order.
    pub fn vertices(&self) -> (r: &Vec<V>)
        ensures
            r@ == self.vertex_seq(),
    {
        &self.vertices
    }

    /// The index list; its length is always a multiple of three and every
    /// entry names a vertex.
    pub fn indices(&self) -> (r: &Vec<u16>)
        ensures
            r@ == self.index_seq(),
            valid_triangles(r@, self.vertex_seq().len()),
            r@.len() % 3 == 0,
    {
        proof {
            use_type_invariant(self);
        }
        &self.indices
    }

    /// Number of triangles.
    pub fn num_triangles(&self) -> (r: usize)
        ensures
            3 * r == self.index_seq().len(),
    {
        proof {
            use_type_invariant(self);
        }
        self.indices.len() / 3
    }

    /// Hands the buffers over, for upload.
    pub fn into_buffers(self) -> (r: (Vec<V>, Vec<u16>))
        ensures
            r.0@ == self.vertex_seq(),
            r.1@ == self.index_seq(),
            valid_triangles(r.1@, r.0@.len()),
    {
        proof {
            use_type_invariant(&self);
        }
        (self.vertices, self.indices)
    }
}

impl<V: Copy> Mesh<V> {
    /// Applies the vertex projector to every vertex once, in order; the
    /// triangles are kept.
    pub fn project<W, F: Fn(V) -> W>(&self, projector: F) -> (r: Mesh<W>)
        requires
            forall|v: V| #[trigger] projector.requires((v,)),
        ensures
            r.index_seq() == self.index_seq(),
            r.vertex_seq().len() == self.vertex_seq().len(),
            forall|i: int|
                0 <= i < self.vertex_seq().len() ==> projector.ensures(
                    (self.vertex_seq()[i],),
                    #[trigger] r.vertex_seq()[i],
                ),
    {
        proof {
            use_type_invariant(self);
        }
        let mut out: Vec<W> = Vec::new();
        let mut i: usize = 0;
        while i < self.vertices.len()
            invariant
                i <= self.vertices@.len(),
                out@.len() == i,
                forall|v: V| #[trigger] projector.requires((v,)),
                forall|j: int|
                    0 <= j < i ==> projector.ensures((self.vertices@[j],), #[trigger] out@[j]),
            decreases self.vertices@.len() - i,
        {
            let w = projector(self.vertices[i]);
            out.push(w);
            i = i + 1;
        }
        Mesh { vertices: out, indices: self.indices.clone() }
    }
}

} // verus!
