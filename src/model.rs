//! The owned data model. Coordinates and colour channels are IEEE-754 single
//! precision values, held here as their bit patterns: this layer only moves
//! them, it never computes with them.
use vstd::prelude::*;

verus! {

/// A vertex position: three coordinates.
#[derive(Clone, Copy, Debug, PartialEq, Eq)]
pub struct Vertex {
    pub v: [u32; 3],
}

/// A three-component vector: a surface normal or a per-axis voxel size.
#[derive(Clone, Copy, Debug, PartialEq, Eq)]
pub struct Vector3 {
    pub x: u32,
    pub y: u32,
    pub z: u32,
}

/// An RGB colour.
#[derive(Clone, Copy, Debug, PartialEq, Eq)]
pub struct Colour {
    pub r: u32,
    pub g: u32,
    pub b: u32,
}

impl Vertex {
    pub fn new(v: [u32; 3]) -> (r: Vertex)
        ensures
            r.v@ == v@,
    {
        Vertex { v }
    }
}

impl Colour {
    pub fn new(r: u32, g: u32, b: u32) -> (c: Colour)
        ensures
            c.r == r,
            c.g == g,
            c.b == b,
    {
        Colour { r, g, b }
    }
}

impl Vector3 {
    pub fn new(x: u32, y: u32, z: u32) -> (r: Vector3)
        ensures
            r.x == x,
            r.y == y,
            r.z == z,
    {
        Vector3 { x, y, z }
    }
}

/// Why a voxelization call produced no value.
#[derive(Clone, Copy, Debug, PartialEq, Eq)]
pub enum VoxelError {
    /// The input breaks a rule of the data model; no engine call was made.
    InvalidInput,
    /// The engine returned no result, or one whose counts exceed its arrays.
    EngineFailure,
}

/// A triangle mesh. `colours` is empty or parallel to `vertices`; `normals`
/// holds one normal per vertex, in vertex order, because the engine addresses
/// normals with the triangle indices; `indices` lists triangles, three
/// entries each.
pub struct Mesh {
    pub vertices: Vec<Vertex>,
    pub colours: Vec<Colour>,
    pub normals: Vec<Vector3>,
    pub indices: Vec<u32>,
}

/// The contents of a mesh, as sequences.
pub struct MeshView {
    pub vertices: Seq<Vertex>,
    pub colours: Seq<Colour>,
    pub normals: Seq<Vector3>,
    pub indices: Seq<u32>,
}

/// Sampled voxel centres, each with its colour.
pub struct PointCloud {
    pub vertices: Vec<Vertex>,
    pub colours: Vec<Colour>,
}

/// The contents of a point cloud, as sequences.
pub struct PointCloudView {
    pub vertices: Seq<Vertex>,
    pub colours: Seq<Colour>,
}

impl View for Mesh {
    type V = MeshView;

    open spec fn view(&self) -> MeshView {
        MeshView {
            vertices: self.vertices@,
            colours: self.colours@,
            normals: self.normals@,
            indices: self.indices@,
        }
    }
}

impl View for PointCloud {
    type V = PointCloudView;

    open spec fn view(&self) -> PointCloudView {
        PointCloudView { vertices: self.vertices@, colours: self.colours@ }
    }
}

impl MeshView {
    /// The index list is made of whole triangles, and the colours are absent
    /// or one per vertex.
    pub open spec fn well_formed(self) -> bool {
        &&& self.indices.len() % 3 == 0
        &&& (self.colours.len() == 0 || self.colours.len() == self.vertices.len())
    }
}

impl Mesh {
    pub fn new(
        vertices: Vec<Vertex>,
        colours: Vec<Colour>,
        normals: Vec<Vector3>,
        indices: Vec<u32>,
    ) -> (r: Mesh)
        ensures
            r@ == (MeshView {
                vertices: vertices@,
                colours: colours@,
                normals: normals@,
                indices: indices@,
            }),
    {
        Mesh { vertices, colours, normals, indices }
    }

    /// Accepts exactly the well-formed meshes; anything else is invalid input.
    pub fn validate(&self) -> (r: Result<(), VoxelError>)
        ensures
            r is Ok <==> self@.well_formed(),
            r is Err ==> r == Err::<(), VoxelError>(VoxelError::InvalidInput),
    {
        if self.indices.len() % 3 != 0 {
            return Err(VoxelError::InvalidInput);
        }
        if self.colours.len() != 0 && self.colours.len() != self.vertices.len() {
            return Err(VoxelError::InvalidInput);
        }
        Ok(())
    }
}

impl PointCloud {
    pub fn new(vertices: Vec<Vertex>, colours: Vec<Colour>) -> (r: PointCloud)
        ensures
            r@ == (PointCloudView { vertices: vertices@, colours: colours@ }),
    {
        PointCloud { vertices, colours }
    }
}

} // verus!
