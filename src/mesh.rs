//! Mesh data as plain values: every number is an `f32` bit pattern.
use vstd::prelude::*;

verus! {

#[derive(Clone, Copy, Debug, PartialEq, Eq, Structural)]
pub struct Vec2Bits {
    pub x: u32,
    pub y: u32,
}

#[derive(Clone, Copy, Debug, PartialEq, Eq, Structural)]
pub struct Vec3Bits {
    pub x: u32,
    pub y: u32,
    pub z: u32,
}

#[derive(Clone, Copy, Debug, PartialEq, Eq, Structural)]
pub struct Vec4Bits {
    pub x: u32,
    pub y: u32,
    pub z: u32,
    pub w: u32,
}

/// The triangle index buffer, in either width.
pub enum Indices {
    U16(Vec<u16>),
    U32(Vec<u32>),
}

pub enum IndicesView {
    U16(Seq<u16>),
    U32(Seq<u32>),
}

impl View for Indices {
    type V = IndicesView;

    open spec fn view(&self) -> IndicesView {
        match self {
            Indices::U16(v) => IndicesView::U16(v@),
            Indices::U32(v) => IndicesView::U32(v@),
        }
    }
}

/// A static mesh. The index buffer is always present: a mesh without one is
/// not a `RawMesh`.
pub struct RawMesh {
    pub positions: Vec<Vec3Bits>,
    pub normals: Vec<Vec3Bits>,
    pub uvs: Vec<Vec2Bits>,
    pub colors: Vec<Vec4Bits>,
    pub indices: Indices,
}

pub struct MeshView {
    pub positions: Seq<Vec3Bits>,
    pub normals: Seq<Vec3Bits>,
    pub uvs: Seq<Vec2Bits>,
    pub colors: Seq<Vec4Bits>,
    pub indices: IndicesView,
}

impl View for RawMesh {
    type V = MeshView;

    open spec fn view(&self) -> MeshView {
        MeshView {
            positions: self.positions@,
            normals: self.normals@,
            uvs: self.uvs@,
            colors: self.colors@,
            indices: self.indices@,
        }
    }
}

/// An element-for-element copy of `v`.
pub fn copy_all<T: Copy>(v: &Vec<T>) -> (r: Vec<T>)
    ensures
        r@ == v@,
{
    let mut r: Vec<T> = Vec::with_capacity(v.len());
    let mut i: usize = 0;
    while i < v.len()
        invariant
            i <= v@.len(),
            r@ == v@.subrange(0, i as int),
        decreases v@.len() - i,
    {
        r.push(v[i]);
        i = i + 1;
    }
    assert(r@ =~= v@);
    r
}

impl Indices {
    pub fn copy(&self) -> (r: Indices)
        ensures
            r@ == self@,
    {
        match self {
            Indices::U16(v) => Indices::U16(copy_all(v)),
            Indices::U32(v) => Indices::U32(copy_all(v)),
        }
    }
}

impl RawMesh {
    /// A copy holding the same positions, normals, UVs, colours and indices.
    pub fn copy(&self) -> (r: RawMesh)
        ensures
            r@ == self@,
    {
        RawMesh {
            positions: copy_all(&self.positions),
            normals: copy_all(&self.normals),
            uvs: copy_all(&self.uvs),
            colors: copy_all(&self.colors),
            indices: self.indices.copy(),
        }
    }

    pub fn vertex_count(&self) -> (r: usize)
        ensures
            r == self@.positions.len(),
    {
        self.positions.len()
    }
}

} // verus!
