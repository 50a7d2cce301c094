use viassic_common::block::{Clube, VoxelVisibility};
use viassic_common::kind::ClubeType;
use viassic_common::world::scene_voxel;

#[test]
fn scene_bottom_layer_is_stone() {
    for x in 0..4 {
        for z in 0..4 {
            let v = scene_voxel(x, 0, z, 4).unwrap();
            assert_eq!(v.identifier, ClubeType::Stone);
            assert_eq!(v.visibility, VoxelVisibility::Opaque);
        }
    }
}

#[test]
fn scene_top_layer_leaves_the_rim_open() {
    assert_eq!(scene_voxel(0, 1, 2, 4), None);
    assert_eq!(scene_voxel(3, 1, 2, 4), None);
    assert_eq!(scene_voxel(2, 1, 0, 4), None);
    assert_eq!(scene_voxel(2, 1, 3, 4), None);
    let inner: Option<Clube> = scene_voxel(1, 1, 2, 4);
    assert_eq!(inner.map(|c| c.identifier), Some(ClubeType::Grass));
    let mut count = 0;
    for x in 0..16 {
        for z in 0..16 {
            if scene_voxel(x, 1, z, 16).is_some() {
                count += 1;
            }
        }
    }
    assert_eq!(count, 14 * 14);
}
