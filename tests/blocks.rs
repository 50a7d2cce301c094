use viassic_common::block::{Clube, ClubeRegistry, VoxelVisibility};
use viassic_common::geometry::{standard_geometries, BlockGeo, BlockGeometry, Geometry, GeometryRegistry};
use viassic_common::kind::ClubeType;
use viassic_common::name_map::NameMap;
use viassic_common::palette::{Palette, PaletteValue};
use viassic_common::textures::{load_textures, ClubeAssetRegistry};

fn built_registry() -> ClubeAssetRegistry {
    let mut next = 0;
    let slots: Vec<Vec<usize>> = load_textures()
        .iter()
        .map(|k| {
            k.images
                .iter()
                .map(|_| {
                    next += 1;
                    next - 1
                })
                .collect()
        })
        .collect();
    ClubeAssetRegistry::build(&slots).unwrap()
}

#[test]
fn default_block_is_empty_air() {
    let c = Clube::default();
    assert_eq!(c.identifier, ClubeType::Air);
    assert_eq!(c.visibility, VoxelVisibility::Empty);
    assert_eq!(c.geometry, BlockGeometry::Block);
    assert!(c.is_empty(None));
    assert!(c.is_true_empty(None));
    assert!(!c.is_opaque(None));
    assert!(ClubeRegistry::default().is_empty(c));
}

#[test]
fn visibility_follows_kind() {
    for k in ClubeType::all_kinds() {
        for transparent in [false, true] {
            let c = Clube::new(k, BlockGeometry::Block, transparent);
            assert_eq!(c.visibility == VoxelVisibility::Empty, k == ClubeType::default());
        }
    }
    let glass = Clube::new(ClubeType::Stone, BlockGeometry::Slab, true);
    assert_eq!(glass.to_visibility(None, None), Some(VoxelVisibility::Transparent));
    let stone = Clube::new(ClubeType::Stone, BlockGeometry::Block, false);
    assert!(stone.is_opaque(None));
    assert!(!stone.is_empty(None));
    let air = Clube::new(ClubeType::Air, BlockGeometry::Block, false);
    assert_eq!(air.visibility, VoxelVisibility::Empty);
}

#[test]
fn identifier_is_kind_name() {
    let c = Clube::new(ClubeType::Grass, BlockGeometry::Block, false);
    assert_eq!(c.identifier(), "Grass");
    assert_eq!(Clube::light_level(), None);
}

#[test]
fn every_catalog_kind_has_textures() {
    let reg = built_registry();
    for k in ClubeType::all_kinds() {
        let c = Clube::new(k, BlockGeometry::Block, false);
        let idx = c.to_texture_idx(None, Some(&reg));
        assert_eq!(idx.is_some(), k != ClubeType::Air);
    }
    let dirt = Clube::new(ClubeType::Dirt, BlockGeometry::Block, false);
    assert_eq!(dirt.to_texture_idx(None, None), None);
    assert_eq!(dirt.to_texture_idx(None, Some(&reg)), Some([0; 6]));
}

#[test]
fn geometry_index_interns_shapes() {
    let geo = standard_geometries();
    let mut pal: Palette<BlockGeo> = Palette::new();
    let block = Clube::new(ClubeType::Stone, BlockGeometry::Block, false);
    let slab = Clube::new(ClubeType::Stone, BlockGeometry::Slab, false);
    assert_eq!(block.to_geo_idx(Some(&mut pal), Some(&geo), None), Some(0));
    assert_eq!(slab.to_geo_idx(Some(&mut pal), Some(&geo), None), Some(1));
    assert_eq!(block.to_geo_idx(Some(&mut pal), Some(&geo), None), Some(0));
    assert_eq!(pal.len(), 2);
    assert_eq!(pal.values[1].cubes[0].end, (16, 8, 16));
}

#[test]
fn unregistered_geometry_gives_none() {
    let empty: GeometryRegistry = NameMap::new();
    let mut pal: Palette<BlockGeo> = Palette::new();
    let block = Clube::new(ClubeType::Dirt, BlockGeometry::Block, false);
    assert_eq!(block.to_geo_idx(Some(&mut pal), Some(&empty), None), None);
    assert_eq!(pal.len(), 0);
    assert_eq!(block.to_geo_idx(Some(&mut pal), None, None), None);
    assert_eq!(block.to_geo_idx(None, Some(&empty), None), None);
    assert_eq!(block.to_match_idx(None), 0);
    assert_eq!(block.blocking_sides(None, Some(&empty)), None);
    assert_eq!(block.blocking_sides(None, None), None);
    let mut only_slab: GeometryRegistry = NameMap::new();
    only_slab.insert("vinox:slab".to_string(), Geometry::slab());
    assert_eq!(block.to_geo_idx(Some(&mut pal), Some(&only_slab), None), None);
}

#[test]
fn blocking_sides_of_shapes() {
    let geo = standard_geometries();
    let slab = Clube::new(ClubeType::Wood, BlockGeometry::Slab, false);
    assert_eq!(
        slab.blocking_sides(None, Some(&geo)),
        Some(([false, false, true, false, false, false], Some([true, true, false, false, true, true])))
    );
    let block = Clube::new(ClubeType::Wood, BlockGeometry::Block, false);
    assert_eq!(block.blocking_sides(None, Some(&geo)), Some(([true; 6], None)));
}

#[test]
fn chunk_of_grass_and_stone_palettes() {
    let geo = standard_geometries();
    let mut matches: Palette<String> = Palette::new();
    let mut shapes: Palette<BlockGeo> = Palette::new();
    let mut voxels = vec![Clube::new(ClubeType::Grass, BlockGeometry::Block, false)];
    for _ in 0..399 {
        voxels.push(Clube::new(ClubeType::Stone, BlockGeometry::Block, false));
    }
    let mut kinds = Vec::new();
    for v in &voxels {
        kinds.push(v.to_match_idx(Some(&mut matches)));
        assert_eq!(v.to_geo_idx(Some(&mut shapes), Some(&geo), None), Some(0));
    }
    assert_eq!(matches.len(), 2);
    assert_eq!(matches.values, vec!["Grass".to_string(), "Stone".to_string()]);
    assert_eq!(shapes.len(), 1);
    assert_eq!(kinds[0], 0);
    assert!(kinds[1..].iter().all(|&i| i == 1));
}

#[test]
fn shape_equality_compares_every_box() {
    let block = Geometry::full_block();
    let slab = Geometry::slab();
    assert!(block.element.cubes[0].same_face(&block.element.cubes[0]));
    assert!(!block.element.cubes[0].same_face(&slab.element.cubes[0]));
    let copy = block.element.copy_of();
    assert!(copy.same(&block.element));
    assert!(!copy.same(&slab.element));
    let mut longer = block.element.copy_of();
    longer.cubes.push(slab.element.cubes[0]);
    assert!(!longer.same(&block.element));
    assert_eq!(block.namespace, "vinox");
    assert_eq!(block.name, "block");
    assert_eq!(slab.name, "slab");
}
