//! Voxelization onto a dense grid: sizing the occupancy buffer before the
//! call, and copying it out afterwards.
use vstd::prelude::*;
use crate::layout::{allocator_for, copy_prefix, layout, Descriptor};
use crate::model::{Mesh, VoxelError};

verus! {

/// The number of cells of a `width` by `height` by `depth` grid.
pub open spec fn cell_count(width: u32, height: u32, depth: u32) -> int {
    width * height * depth
}

/// The number of cells of the grid, or `InvalidInput` where that number does
/// not fit in a `u32`.
pub fn grid_volume(width: u32, height: u32, depth: u32) -> (r: Result<u32, VoxelError>)
    ensures
        r is Ok <==> cell_count(width, height, depth) <= u32::MAX,
        r matches Ok(v) ==> v == cell_count(width, height, depth),
        r is Err ==> r->Err_0 == VoxelError::InvalidInput,
{
    if depth == 0 {
        proof {
            assert(width * height * depth == 0) by (nonlinear_arith)
                requires
                    depth == 0,
            ;
        }
        return Ok(0);
    }
    match width.checked_mul(height) {
        None => {
            proof {
                assert(width * height <= width * height * depth) by (nonlinear_arith)
                    requires
                        depth >= 1,
                        width * height >= 0,
                ;
            }
            Err(VoxelError::InvalidInput)
        },
        Some(area) => match area.checked_mul(depth) {
            None => Err(VoxelError::InvalidInput),
            Some(v) => Ok(v),
        },
    }
}

/// The first `volume` cells of the engine's grid buffer. `None` stands for the
/// engine's null result; a buffer shorter than the grid is a failure too.
pub fn ingest_grid(buffer: Option<&Vec<u32>>, volume: u32) -> (r: Result<Vec<u32>, VoxelError>)
    ensures
        match buffer {
            None => r is Err && r->Err_0 == VoxelError::EngineFailure,
            Some(b) => if volume <= b@.len() {
                r matches Ok(g) && g@ == b@.subrange(0, volume as int)
            } else {
                r is Err && r->Err_0 == VoxelError::EngineFailure
            },
        },
        r matches Ok(g) ==> g@.len() == volume,
{
    match buffer {
        None => Err(VoxelError::EngineFailure),
        Some(b) => {
            if (volume as usize) > b.len() {
                Err(VoxelError::EngineFailure)
            } else {
                Ok(copy_prefix(b, volume as usize))
            }
        },
    }
}

impl Mesh {
    /// Validates this mesh and the grid's size, then fills the descriptor.
    /// Either refusal comes before any descriptor exists, so the grid
    /// entrypoint is never reached with it.
    pub fn prepare_grid(&self, width: u32, height: u32, depth: u32) -> (r: Result<
        (Descriptor, u32),
        VoxelError,
    >)
        ensures
            r is Ok <==> self@.well_formed() && cell_count(width, height, depth) <= u32::MAX,
            r is Err ==> r->Err_0 == VoxelError::InvalidInput,
            r matches Ok((d, v)) ==> {
                &&& d.allocator == allocator_for(self@)
                &&& d.mesh@ == layout(self@)
                &&& v == cell_count(width, height, depth)
            },
    {
        match self.validate() {
            Err(e) => Err(e),
            Ok(()) => match grid_volume(width, height, depth) {
                Err(e) => Err(e),
                Ok(v) => Ok((self.allocate(), v)),
            },
        }
    }
}

} // verus!
