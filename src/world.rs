//! The layout of the starting scene's chunk.

use vstd::prelude::*;
use crate::block::Clube;
use crate::geometry::BlockGeometry;
use crate::kind::ClubeType;

verus! {

/// The kind placed in layer `y` at column `(x, z)` of a chunk with edge
/// `size`: stone on the bottom layer, grass above it but for the rim.
pub open spec fn scene_kind(x: u32, y: u32, z: u32, size: u32) -> Option<ClubeType> {
    if y == 0 {
        Some(ClubeType::Stone)
    } else if x == 0 || z == 0 || x + 1 == size || z + 1 == size {
        None
    } else {
        Some(ClubeType::Grass)
    }
}

/// The full opaque block that the starting scene places in layer `y`
/// (0 or 1) at column `(x, z)`, if any.
pub fn scene_voxel(x: u32, y: u32, z: u32, size: u32) -> (r: Option<Clube>)
    requires
        y < 2,
        x < size,
        z < size,
    ensures
        match scene_kind(x, y, z, size) {
            None => r == None::<Clube>,
            Some(k) => r matches Some(c) && c == Clube::new_spec(k),
        },
{
    let kind = if y == 0 {
        ClubeType::Stone
    } else if x == 0 || z == 0 || x + 1 == size || z + 1 == size {
        return None;
    } else {
        ClubeType::Grass
    };
    Some(Clube::new(kind, BlockGeometry::Block, false))
}

} // verus!
