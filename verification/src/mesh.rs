//! The renderable mesh: a vertex sequence and a 16-bit triangle-list index
//! sequence into it.

use vstd::prelude::*;
use crate::fixed::{Vec2Fx, Vec3Fx};

verus! {

/// Highest vertex count a mesh may reach: one more than the largest value a
/// 16-bit index can carry, so that every index below the count fits.
pub const MAX_VERTICES: usize = 65536;

/// Why a geometry builder rejected its input.
#[derive(Clone, Copy, PartialEq, Eq, Structural, Debug)]
pub enum GeometryError {
    /// A primitive was given a non-positive dimension.
    InvalidDimension,
    /// A cylinder was asked for with fewer than three rim segments.
    TooFewSegments,
    /// A plane normal outside the six axis directions, which the exact
    /// fixed-point basis construction cannot represent.
    UnsupportedNormal,
    /// The combined vertex count would no longer fit 16-bit indices.
    IndexOverflow,
}

/// One mesh vertex: position, unit normal (fixed-point, so a unit axis
/// normal has one component of magnitude `SCALE`), texture coordinates.
#[derive(Clone, Copy, PartialEq, Eq, Structural, Debug)]
pub struct Vertex {
    pub position: Vec3Fx,
    pub normal: Vec3Fx,
    pub tex_coords: Vec2Fx,
}

impl Vertex {
    pub fn new(position: Vec3Fx, normal: Vec3Fx, tex_coords: Vec2Fx) -> (v: Vertex)
        ensures
            v == (Vertex { position, normal, tex_coords }),
    {
        Vertex { position, normal, tex_coords }
    }
}

/// An indexed triangle-list mesh.
pub struct Mesh {
    pub vertices: Vec<Vertex>,
    pub indices: Vec<u16>,
}

/// The mathematical value of a mesh: its two sequences.
pub ghost struct MeshView {
    pub vertices: Seq<Vertex>,
    pub indices: Seq<u16>,
}

impl View for Mesh {
    type V = MeshView;

    open spec fn view(&self) -> MeshView {
        MeshView { vertices: self.vertices@, indices: self.indices@ }
    }
}

impl MeshView {
    pub open spec fn empty() -> MeshView {
        MeshView { vertices: Seq::empty(), indices: Seq::empty() }
    }

    /// Every index points at a vertex of this mesh.
    pub open spec fn wf(self) -> bool {
        forall|i: int|
            0 <= i < self.indices.len() ==> (self.indices[i] as int) < self.vertices.len()
    }
}

/// `b` appended to `a`, `b`'s indices rebased by `a`'s vertex count.
pub open spec fn mesh_concat(a: MeshView, b: MeshView) -> MeshView {
    MeshView {
        vertices: a.vertices + b.vertices,
        indices: a.indices + b.indices.map(|_i: int, idx: u16| ((idx + a.vertices.len()) as u16)),
    }
}

/// Rebasing by the left vertex count keeps every index valid.
pub proof fn lemma_mesh_concat_wf(a: MeshView, b: MeshView)
    requires
        a.wf(),
        b.wf(),
        a.vertices.len() + b.vertices.len() <= MAX_VERTICES,
    ensures
        mesh_concat(a, b).wf(),
        mesh_concat(a, b).vertices.len() == a.vertices.len() + b.vertices.len(),
        mesh_concat(a, b).indices.len() == a.indices.len() + b.indices.len(),
{
    let c = mesh_concat(a, b);
    assert forall|i: int| 0 <= i < c.indices.len() implies (c.indices[i] as int)
        < c.vertices.len() by {
        if i < a.indices.len() {
            assert((a.indices[i] as int) < a.vertices.len());
        } else {
            let j = i - a.indices.len();
            assert((b.indices[j] as int) < b.vertices.len());
            assert(c.indices[i] == ((b.indices[j] + a.vertices.len()) as u16));
        }
    }
}

impl Mesh {
    pub fn new() -> (m: Mesh)
        ensures
            m@ == MeshView::empty(),
    {
        let m = Mesh { vertices: Vec::new(), indices: Vec::new() };
        proof {
            assert(m@.vertices =~= Seq::<Vertex>::empty());
            assert(m@.indices =~= Seq::<u16>::empty());
        }
        m
    }

    /// Appends a vertex and returns its index.
    pub fn add_vertex(&mut self, vertex: Vertex) -> (i: u16)
        requires
            old(self).vertices.len() < MAX_VERTICES,
        ensures
            i as int == old(self)@.vertices.len(),
            final(self)@.vertices == old(self)@.vertices.push(vertex),
            final(self)@.indices == old(self)@.indices,
    {
        let i = self.vertices.len() as u16;
        self.vertices.push(vertex);
        i
    }

    /// Appends one triangle.
    pub fn add_triangle(&mut self, i0: u16, i1: u16, i2: u16)
        ensures
            final(self)@.vertices == old(self)@.vertices,
            final(self)@.indices == old(self)@.indices + seq![i0, i1, i2],
    {
        self.indices.push(i0);
        self.indices.push(i1);
        self.indices.push(i2);
        proof {
            assert(self@.indices =~= old(self)@.indices + seq![i0, i1, i2]);
        }
    }

    /// Appends a quad as two triangles, fanned `(0,1,2) (0,2,3)`.
    pub fn add_quad(&mut self, i0: u16, i1: u16, i2: u16, i3: u16)
        ensures
            final(self)@.vertices == old(self)@.vertices,
            final(self)@.indices == old(self)@.indices + seq![i0, i1, i2, i0, i2, i3],
    {
        self.indices.push(i0);
        self.indices.push(i1);
        self.indices.push(i2);
        self.indices.push(i0);
        self.indices.push(i2);
        self.indices.push(i3);
        proof {
            assert(self@.indices =~= old(self)@.indices + seq![i0, i1, i2, i0, i2, i3]);
        }
    }

    /// Appends another mesh, rebasing its indices by this mesh's vertex
    /// count, per `mesh_concat`.
    pub fn append(&mut self, other: &Mesh)
        requires
            other@.wf(),
            old(self).vertices.len() + other.vertices.len() <= MAX_VERTICES,
        ensures
            final(self)@ == mesh_concat(old(self)@, other@),
    {
        let offset = #[verifier::truncate] (self.vertices.len() as u16);
        proof {
            // A full mesh admits no valid index, so a well-formed `other`
            // with any index at all leaves room for the cast to be exact.
            if other@.indices.len() > 0 {
                assert((other@.indices[0] as int) < other@.vertices.len());
            }
        }
        let mut k: usize = 0;
        while k < other.vertices.len()
            invariant
                k <= other.vertices.len(),
                old(self).vertices.len() + other.vertices.len() <= MAX_VERTICES,
                self@.vertices == old(self)@.vertices + other@.vertices.subrange(0, k as int),
                self@.indices == old(self)@.indices,
            decreases other.vertices.len() - k,
        {
            self.vertices.push(other.vertices[k]);
            k += 1;
            proof {
                assert(self@.vertices =~= old(self)@.vertices + other@.vertices.subrange(
                    0,
                    k as int,
                ));
            }
        }
        proof {
            assert(other@.vertices.subrange(0, other@.vertices.len() as int) =~= other@.vertices);
        }
        let mut k: usize = 0;
        while k < other.indices.len()
            invariant
                k <= other.indices.len(),
                other@.wf(),
                old(self).vertices.len() + other.vertices.len() <= MAX_VERTICES,
                other@.indices.len() > 0 ==> offset as int == old(self)@.vertices.len(),
                self@.vertices == old(self)@.vertices + other@.vertices,
                self@.indices.len() == old(self)@.indices.len() + k,
                old(self)@.indices == self@.indices.subrange(0, old(self)@.indices.len() as int),
                forall|i: int|
                    0 <= i < k ==> self@.indices[old(self)@.indices.len() + i] == ((
                    other@.indices[i] + old(self)@.vertices.len()) as u16),
            decreases other.indices.len() - k,
        {
            let idx = other.indices[k];
            proof {
                assert((other@.indices[k as int] as int) < other@.vertices.len());
            }
            self.indices.push(idx + offset);
            k += 1;
        }
        proof {
            let expect = mesh_concat(old(self)@, other@);
            assert(self@.indices =~= expect.indices);
            assert(self@.vertices =~= expect.vertices);
        }
    }
}

} // verus!
