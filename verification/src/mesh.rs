//! Triangle meshes and the change of handedness applied to a loaded mesh.
//!
//! A coordinate is carried as the bit pattern of an IEEE 754 single
//! (`f32::to_bits`). The only arithmetic that a mesh ever sees is negation,
//! which is a flip of the pattern's sign bit.

use vstd::prelude::*;

verus! {

/// The sign bit of a single-precision pattern.
pub const SIGN_BIT: u32 = 0x8000_0000;

/// The pattern of `-c`, for the pattern `bits` of `c`.
pub open spec fn flip_sign(bits: u32) -> u32 {
    bits ^ SIGN_BIT
}

/// The components of a vector with the third one negated.
pub open spec fn mirrored(c: Seq<u32>) -> Seq<u32> {
    seq![c[0], c[1], flip_sign(c[2])]
}

/// One corner of a triangle: where it is and where its surface faces.
#[derive(Clone, Copy, Debug, PartialEq, Eq)]
pub struct Vertex {
    /// Position, as three bit patterns.
    pub position: [u32; 3],
    /// Normal vector, as three bit patterns.
    pub normal: [u32; 3],
}

/// A triangulated mesh: three consecutive indices make one triangle.
#[derive(Clone, Debug, PartialEq, Eq)]
pub struct Mesh {
    pub name: Option<String>,
    pub vertices: Vec<Vertex>,
    pub indices: Vec<u16>,
}

impl Vertex {
    /// `other` is this vertex seen in the other handedness: position and
    /// normal with the z component negated.
    pub open spec fn mirrors(self, other: Vertex) -> bool {
        &&& other.position@ == mirrored(self.position@)
        &&& other.normal@ == mirrored(self.normal@)
    }

    /// The vertex in the other handedness.
    pub fn to_left_handed(&self) -> (v: Vertex)
        ensures
            self.mirrors(v),
    {
        let v = Vertex {
            position: [self.position[0], self.position[1], self.position[2] ^ SIGN_BIT],
            normal: [self.normal[0], self.normal[1], self.normal[2] ^ SIGN_BIT],
        };
        assert(v.position@ =~= mirrored(self.position@));
        assert(v.normal@ =~= mirrored(self.normal@));
        v
    }
}

impl Mesh {
    /// `other` is this mesh in the other handedness: the same name and
    /// triangles, every vertex mirrored.
    pub open spec fn mirrors(self, other: Mesh) -> bool {
        &&& other.name == self.name
        &&& other.indices@ == self.indices@
        &&& other.vertices@.len() == self.vertices@.len()
        &&& forall|i: int|
            0 <= i < self.vertices@.len() ==> (#[trigger] self.vertices@[i]).mirrors(
                other.vertices@[i],
            )
    }
}

/// Converts a mesh between a right-handed and a left-handed coordinate
/// system by negating every z component, of positions and of normals.
pub fn to_left_handed(obj: &Mesh) -> (converted: Mesh)
    ensures
        obj.mirrors(converted),
{
    let name = match &obj.name {
        Some(n) => Some(n.clone()),
        None => None,
    };
    let mut indices: Vec<u16> = Vec::new();
    let mut k: usize = 0;
    while k < obj.indices.len()
        invariant
            k <= obj.indices@.len(),
            indices@ == obj.indices@.take(k as int),
        decreases obj.indices@.len() - k,
    {
        indices.push(obj.indices[k]);
        assert(indices@ =~= obj.indices@.take(k + 1));
        k = k + 1;
    }
    assert(obj.indices@.take(k as int) =~= obj.indices@);
    let mut vertices: Vec<Vertex> = Vec::new();
    let mut i: usize = 0;
    while i < obj.vertices.len()
        invariant
            i <= obj.vertices@.len(),
            vertices@.len() == i,
            forall|j: int| 0 <= j < i ==> (#[trigger] obj.vertices@[j]).mirrors(vertices@[j]),
        decreases obj.vertices@.len() - i,
    {
        vertices.push(obj.vertices[i].to_left_handed());
        i = i + 1;
    }
    Mesh { name, vertices, indices }
}

/// Negating twice gives the first pattern back, so converting a vertex
/// twice gives the vertex back.
pub proof fn lemma_mirror_twice(a: Vertex, b: Vertex, c: Vertex)
    requires
        a.mirrors(b),
        b.mirrors(c),
    ensures
        c.position@ == a.position@,
        c.normal@ == a.normal@,
{
    let p: u32 = a.position@[2];
    let n: u32 = a.normal@[2];
    assert((p ^ 0x8000_0000u32) ^ 0x8000_0000u32 == p) by (bit_vector);
    assert((n ^ 0x8000_0000u32) ^ 0x8000_0000u32 == n) by (bit_vector);
    assert(c.position@ =~= a.position@);
    assert(c.normal@ =~= a.normal@);
}

} // verus!
