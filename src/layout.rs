//! The engine's flat layout: the descriptor that is filled from a mesh before
//! a call, and the mesh and point-cloud results that are copied back out.
use vstd::prelude::*;
use crate::model::{Colour, Mesh, MeshView, PointCloud, PointCloudView, Vector3, Vertex, VoxelError};

verus! {

/// The engine's two descriptor allocation routines. The engine's names are
/// swapped relative to what they allocate; the selection rule below keeps the
/// engine's own pairing: a mesh with colours goes through `Plain`
/// (`vx_mesh_alloc`), one without through `Coloured` (`vx_color_mesh_alloc`).
#[derive(Clone, Copy, Debug, PartialEq, Eq)]
pub enum Allocator {
    Plain,
    Coloured,
}

/// A mesh in the engine's flat layout. The index array is stored twice: the
/// engine reads normals through `normalindices`, which repeats `indices`.
pub struct FlatMesh {
    pub vertices: Vec<Vertex>,
    pub colors: Vec<Colour>,
    pub normals: Vec<Vector3>,
    pub indices: Vec<u32>,
    pub normalindices: Vec<u32>,
    pub nindices: usize,
    pub nvertices: usize,
    pub nnormals: usize,
}

pub struct FlatMeshView {
    pub vertices: Seq<Vertex>,
    pub colors: Seq<Colour>,
    pub normals: Seq<Vector3>,
    pub indices: Seq<u32>,
    pub normalindices: Seq<u32>,
    pub nindices: nat,
    pub nvertices: nat,
    pub nnormals: nat,
}

/// A point cloud in the engine's flat layout.
pub struct FlatPointCloud {
    pub vertices: Vec<Vertex>,
    pub colors: Vec<Colour>,
    pub nvertices: usize,
}

pub struct FlatPointCloudView {
    pub vertices: Seq<Vertex>,
    pub colors: Seq<Colour>,
    pub nvertices: nat,
}

/// A filled descriptor, with the routine through which the engine allocates it.
pub struct Descriptor {
    pub allocator: Allocator,
    pub mesh: FlatMesh,
}

impl View for FlatMesh {
    type V = FlatMeshView;

    open spec fn view(&self) -> FlatMeshView {
        FlatMeshView {
            vertices: self.vertices@,
            colors: self.colors@,
            normals: self.normals@,
            indices: self.indices@,
            normalindices: self.normalindices@,
            nindices: self.nindices as nat,
            nvertices: self.nvertices as nat,
            nnormals: self.nnormals as nat,
        }
    }
}

impl View for FlatPointCloud {
    type V = FlatPointCloudView;

    open spec fn view(&self) -> FlatPointCloudView {
        FlatPointCloudView {
            vertices: self.vertices@,
            colors: self.colors@,
            nvertices: self.nvertices as nat,
        }
    }
}

/// The routine that allocates the descriptor of a mesh with these contents.
pub open spec fn allocator_for(m: MeshView) -> Allocator {
    if m.colours.len() > 0 {
        Allocator::Plain
    } else {
        Allocator::Coloured
    }
}

/// The descriptor of a mesh: every array copied as it is, the index array
/// twice, and each count equal to the length of its source.
pub open spec fn layout(m: MeshView) -> FlatMeshView {
    FlatMeshView {
        vertices: m.vertices,
        colors: m.colours,
        normals: m.normals,
        indices: m.indices,
        normalindices: m.indices,
        nindices: m.indices.len(),
        nvertices: m.vertices.len(),
        nnormals: m.normals.len(),
    }
}

/// The colours a mesh result carries: none when its colour array is absent,
/// else one per vertex.
pub open spec fn result_colours(f: FlatMeshView) -> Seq<Colour> {
    if f.colors.len() == 0 {
        Seq::empty()
    } else {
        f.colors.subrange(0, f.nvertices as int)
    }
}

/// Every count of a mesh result stays within its array.
pub open spec fn mesh_counts_fit(f: FlatMeshView) -> bool {
    &&& f.nvertices <= f.vertices.len()
    &&& (f.colors.len() == 0 || f.nvertices <= f.colors.len())
    &&& f.nnormals <= f.normals.len()
    &&& f.nindices <= f.indices.len()
}

/// The owned mesh copied out of a mesh result, or `None` where its counts
/// exceed its arrays.
pub open spec fn ingest_mesh(f: FlatMeshView) -> Option<MeshView> {
    if mesh_counts_fit(f) {
        Some(
            MeshView {
                vertices: f.vertices.subrange(0, f.nvertices as int),
                colours: result_colours(f),
                normals: f.normals.subrange(0, f.nnormals as int),
                indices: f.indices.subrange(0, f.nindices as int),
            },
        )
    } else {
        None
    }
}

/// The owned point cloud copied out of a point-cloud result, or `None` where
/// its count exceeds its vertex or colour array.
pub open spec fn ingest_point_cloud(f: FlatPointCloudView) -> Option<PointCloudView> {
    if f.nvertices <= f.vertices.len() && f.nvertices <= f.colors.len() {
        Some(
            PointCloudView {
                vertices: f.vertices.subrange(0, f.nvertices as int),
                colours: f.colors.subrange(0, f.nvertices as int),
            },
        )
    } else {
        None
    }
}

/// The first `n` entries of `src`, copied in order.
pub(crate) fn copy_prefix<T: Copy>(src: &Vec<T>, n: usize) -> (r: Vec<T>)
    requires
        n <= src@.len(),
    ensures
        r@ == src@.subrange(0, n as int),
{
    let mut r: Vec<T> = Vec::new();
    let mut i: usize = 0;
    while i < n
        invariant
            n <= src@.len(),
            i <= n,
            r@ == src@.subrange(0, i as int),
        decreases n - i,
    {
        r.push(src[i]);
        i = i + 1;
        proof {
            assert(r@ =~= src@.subrange(0, i as int));
        }
    }
    r
}

impl Mesh {
    /// The allocation routine for this mesh's descriptor.
    pub fn allocator(&self) -> (r: Allocator)
        ensures
            r == allocator_for(self@),
    {
        if self.colours.len() > 0 {
            Allocator::Plain
        } else {
            Allocator::Coloured
        }
    }

    /// Fills a descriptor from this mesh. Nothing is checked here: see
    /// `prepare` for the call that validates first.
    pub fn allocate(&self) -> (d: Descriptor)
        ensures
            d.allocator == allocator_for(self@),
            d.mesh@ == layout(self@),
    {
        let vertices = copy_prefix(&self.vertices, self.vertices.len());
        let colors = copy_prefix(&self.colours, self.colours.len());
        let normals = copy_prefix(&self.normals, self.normals.len());
        let indices = copy_prefix(&self.indices, self.indices.len());
        let normalindices = copy_prefix(&self.indices, self.indices.len());
        proof {
            assert(vertices@ =~= self.vertices@);
            assert(colors@ =~= self.colours@);
            assert(normals@ =~= self.normals@);
            assert(indices@ =~= self.indices@);
            assert(normalindices@ =~= self.indices@);
        }
        let mesh = FlatMesh {
            vertices,
            colors,
            normals,
            indices,
            normalindices,
            nindices: self.indices.len(),
            nvertices: self.vertices.len(),
            nnormals: self.normals.len(),
        };
        Descriptor { allocator: self.allocator(), mesh }
    }

    /// Validates this mesh, then fills its descriptor. An invalid mesh is
    /// refused before any descriptor exists, so no engine call can follow.
    pub fn prepare(&self) -> (r: Result<Descriptor, VoxelError>)
        ensures
            r is Ok <==> self@.well_formed(),
            r is Err ==> r->Err_0 == VoxelError::InvalidInput,
            r matches Ok(d) ==> d.allocator == allocator_for(self@) && d.mesh@ == layout(self@),
    {
        match self.validate() {
            Ok(()) => Ok(self.allocate()),
            Err(e) => Err(e),
        }
    }

    /// Copies a mesh result of the engine into an owned mesh. `None` stands
    /// for the engine's null result.
    pub fn from_vx(result: Option<&FlatMesh>) -> (r: Result<Mesh, VoxelError>)
        ensures
            match result {
                None => r == Err::<Mesh, VoxelError>(VoxelError::EngineFailure),
                Some(f) => match ingest_mesh(f@) {
                    Some(m) => r matches Ok(v) && v@ == m,
                    None => r is Err && r->Err_0 == VoxelError::EngineFailure,
                },
            },
    {
        let f = match result {
            None => {
                return Err(VoxelError::EngineFailure);
            },
            Some(f) => f,
        };
        if f.nvertices > f.vertices.len() || (f.colors.len() != 0 && f.nvertices > f.colors.len())
            || f.nnormals > f.normals.len() || f.nindices > f.indices.len() {
            return Err(VoxelError::EngineFailure);
        }
        let vertices = copy_prefix(&f.vertices, f.nvertices);
        let colours = if f.colors.len() == 0 {
            Vec::new()
        } else {
            copy_prefix(&f.colors, f.nvertices)
        };
        let normals = copy_prefix(&f.normals, f.nnormals);
        let indices = copy_prefix(&f.indices, f.nindices);
        proof {
            assert(colours@ =~= result_colours(f@));
        }
        Ok(Mesh::new(vertices, colours, normals, indices))
    }
}

impl PointCloud {
    /// Copies a point-cloud result of the engine into an owned point cloud.
    /// `None` stands for the engine's null result.
    pub fn from_vx(result: Option<&FlatPointCloud>) -> (r: Result<PointCloud, VoxelError>)
        ensures
            match result {
                None => r is Err && r->Err_0 == VoxelError::EngineFailure,
                Some(f) => match ingest_point_cloud(f@) {
                    Some(p) => r matches Ok(v) && v@ == p,
                    None => r is Err && r->Err_0 == VoxelError::EngineFailure,
                },
            },
    {
        let f = match result {
            None => {
                return Err(VoxelError::EngineFailure);
            },
            Some(f) => f,
        };
        if f.nvertices > f.vertices.len() || f.nvertices > f.colors.len() {
            return Err(VoxelError::EngineFailure);
        }
        let vertices = copy_prefix(&f.vertices, f.nvertices);
        let colours = copy_prefix(&f.colors, f.nvertices);
        Ok(PointCloud::new(vertices, colours))
    }
}

/// Building a descriptor from a mesh whose index list is made of whole
/// triangles and whose colours are absent or one per vertex, then copying it
/// back out, gives the same vertices, colours, normals and indices.
pub proof fn lemma_round_trip(m: MeshView)
    requires
        m.indices.len() % 3 == 0,
        m.colours.len() == 0 || m.colours.len() == m.vertices.len(),
    ensures
        ingest_mesh(layout(m)) == Some(m),
{
    let f = layout(m);
    assert(f.vertices.subrange(0, f.nvertices as int) =~= m.vertices);
    assert(result_colours(f) =~= m.colours);
    assert(f.normals.subrange(0, f.nnormals as int) =~= m.normals);
    assert(f.indices.subrange(0, f.nindices as int) =~= m.indices);
}

} // verus!
