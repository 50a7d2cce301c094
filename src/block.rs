//! The per-voxel block value and the attributes a mesher resolves from it.

use vstd::prelude::*;
use crate::geometry::{geo_namespace, BlockGeo, BlockGeometry, Geometry, GeometryRegistry};
use crate::kind::{default_kind, kind_name, ClubeType};
use crate::name_map::lookup;
use crate::palette::{interned, Palette};
use crate::textures::ClubeAssetRegistry;

verus! {

/// Whether a voxel has no geometry, blocks its neighbours, or lets them show.
#[derive(Clone, Copy, Debug, PartialEq, Eq, Structural, Hash)]
pub enum VoxelVisibility {
    Empty,
    Opaque,
    Transparent,
}

/// One placed voxel.
#[derive(Clone, Copy, Debug, PartialEq, Eq, Structural)]
pub struct Clube {
    pub identifier: ClubeType,
    pub texture: usize,
    pub geometry: BlockGeometry,
    pub visibility: VoxelVisibility,
}

/// Lookup context for voxels; block attributes need nothing from it.
#[derive(Clone, Copy, Debug, Default)]
pub struct ClubeRegistry {}

impl ClubeRegistry {
    /// Whether `vox` has no geometry.
    pub fn is_empty(&self, vox: Clube) -> (r: bool)
        ensures
            r == (vox.visibility == VoxelVisibility::Empty),
    {
        vox.visibility == VoxelVisibility::Empty
    }
}

/// The geometry a tag resolves to in a registry, if registered.
pub open spec fn resolved_geometry(g: BlockGeometry, reg: Map<Seq<char>, Geometry>) -> Option<Geometry> {
    lookup(reg, geo_namespace(g))
}

impl Default for Clube {
    fn default() -> (r: Clube)
        ensures
            r.wf(),
            r.identifier == default_kind(),
            r.texture == 0,
            r.geometry == BlockGeometry::Block,
            r.visibility == VoxelVisibility::Empty,
    {
        Clube {
            identifier: ClubeType::Air,
            texture: 0,
            geometry: BlockGeometry::Block,
            visibility: VoxelVisibility::Empty,
        }
    }
}

impl Clube {
    /// A voxel is well formed when it is empty exactly if its kind is the
    /// empty kind.
    pub open spec fn wf(&self) -> bool {
        (self.visibility == VoxelVisibility::Empty) <==> (self.identifier == default_kind())
    }

    /// The opaque full block of kind `k`, empty for the empty kind.
    pub open spec fn new_spec(k: ClubeType) -> Clube {
        Clube {
            identifier: k,
            texture: 0,
            geometry: BlockGeometry::Block,
            visibility: if k == default_kind() {
                VoxelVisibility::Empty
            } else {
                VoxelVisibility::Opaque
            },
        }
    }

    /// A well-formed voxel of the given kind and shape: empty for the empty
    /// kind, else transparent or opaque as asked.
    pub fn new(identifier: ClubeType, geometry: BlockGeometry, transparent: bool) -> (r: Clube)
        ensures
            r.wf(),
            r.identifier == identifier,
            r.geometry == geometry,
            r.texture == 0,
            identifier == default_kind() ==> r.visibility == VoxelVisibility::Empty,
            identifier != default_kind() ==> r.visibility == (if transparent {
                VoxelVisibility::Transparent
            } else {
                VoxelVisibility::Opaque
            }),
    {
        let visibility = if identifier.is_default() {
            VoxelVisibility::Empty
        } else if transparent {
            VoxelVisibility::Transparent
        } else {
            VoxelVisibility::Opaque
        };
        Clube { identifier, texture: 0, geometry, visibility }
    }

    /// Whether the voxel has no geometry.
    pub fn is_empty(&self, _registry: Option<&ClubeRegistry>) -> (r: bool)
        ensures
            r == (self.visibility == VoxelVisibility::Empty),
    {
        self.visibility == VoxelVisibility::Empty
    }

    /// Whether the voxel has no geometry at all.
    pub fn is_true_empty(&self, _registry: Option<&ClubeRegistry>) -> (r: bool)
        ensures
            r == (self.visibility == VoxelVisibility::Empty),
    {
        self.visibility == VoxelVisibility::Empty
    }

    /// Whether the voxel hides what is behind it.
    pub fn is_opaque(&self, _registry: Option<&ClubeRegistry>) -> (r: bool)
        ensures
            r == (self.visibility == VoxelVisibility::Opaque),
    {
        self.visibility == VoxelVisibility::Opaque
    }

    /// The name of the voxel's kind.
    pub fn identifier(&self) -> (r: String)
        ensures
            r@ == kind_name(self.identifier),
    {
        self.identifier.name()
    }

    /// Interns the voxel's shape into `geo_pal` and returns its index; `None`,
    /// with the palette untouched, when either table is missing or the tag is
    /// not registered.
    pub fn to_geo_idx(
        &self,
        geo_pal: Option<&mut Palette<BlockGeo>>,
        geo_registry: Option<&GeometryRegistry>,
        _vox_registry: Option<&ClubeRegistry>,
    ) -> (r: Option<usize>)
        requires
            match geo_pal {
                Some(p) => p@.len() < usize::MAX,
                None => true,
            },
        ensures
            match geo_pal {
                None => r == None::<usize>,
                Some(p) => match geo_registry {
                    None => r == None::<usize> && final(p)@ == p@,
                    Some(reg) => match resolved_geometry(self.geometry, reg@) {
                        None => r == None::<usize> && final(p)@ == p@,
                        Some(g) => r matches Some(i) && (final(p)@, i as int) == interned(
                            p@,
                            g.element@,
                        ),
                    },
                },
            },
    {
        match geo_pal {
            None => None,
            Some(pal) => match geo_registry {
                None => None,
                Some(reg) => {
                    let key = self.geometry.get_geo_namespace();
                    match reg.get(&key) {
                        None => None,
                        Some(geo) => {
                            let element = geo.element.copy_of();
                            Some(pal.intern(element))
                        },
                    }
                },
            },
        }
    }

    /// Interns the voxel's kind name into `match_pal` and returns its index;
    /// 0 when no palette is in use.
    pub fn to_match_idx(&self, match_pal: Option<&mut Palette<String>>) -> (r: usize)
        requires
            match match_pal {
                Some(p) => p@.len() < usize::MAX,
                None => true,
            },
        ensures
            match match_pal {
                Some(p) => (final(p)@, r as int) == interned(p@, kind_name(self.identifier)),
                None => r == 0,
            },
    {
        match match_pal {
            Some(p) => p.intern(self.identifier.name()),
            None => 0,
        }
    }

    /// The six atlas slots of the voxel's kind, if the registry has them.
    pub fn to_texture_idx(
        &self,
        _vox_registry: Option<&ClubeRegistry>,
        asset_registry: Option<&ClubeAssetRegistry>,
    ) -> (r: Option<[usize; 6]>)
        ensures
            match asset_registry {
                None => r == None::<[usize; 6]>,
                Some(a) => r == lookup(a.texture_indexes@, kind_name(self.identifier)),
            },
    {
        match asset_registry {
            None => None,
            Some(a) => {
                let key = self.identifier.name();
                match a.texture_indexes.get(&key) {
                    None => None,
                    Some(slots) => Some(*slots),
                }
            },
        }
    }

    /// Which neighbours the voxel's shape occludes, and which of its own
    /// faces it occludes; `None` when the tag is not registered.
    pub fn blocking_sides(
        &self,
        _vox_registry: Option<&ClubeRegistry>,
        geo_registry: Option<&GeometryRegistry>,
    ) -> (r: Option<([bool; 6], Option<[bool; 6]>)>)
        ensures
            match geo_registry {
                None => r == None::<([bool; 6], Option<[bool; 6]>)>,
                Some(reg) => match resolved_geometry(self.geometry, reg@) {
                    None => r == None::<([bool; 6], Option<[bool; 6]>)>,
                    Some(g) => r == Some((g.blocks, g.blocks_self)),
                },
            },
    {
        match geo_registry {
            None => None,
            Some(reg) => {
                let key = self.geometry.get_geo_namespace();
                match reg.get(&key) {
                    None => None,
                    Some(geo) => Some((geo.blocks, geo.blocks_self)),
                }
            },
        }
    }

    /// Blocks of this kind emit no light.
    pub fn light_level() -> (r: Option<u8>)
        ensures
            r == None::<u8>,
    {
        None
    }

    /// The voxel's visibility class.
    pub fn to_visibility(
        &self,
        _vox_registry: Option<&ClubeRegistry>,
        _geo_registry: Option<&GeometryRegistry>,
    ) -> (r: Option<VoxelVisibility>)
        ensures
            r == Some(self.visibility),
    {
        Some(self.visibility)
    }
}

/// For every well-formed voxel, its visibility is `Empty` exactly when its
/// kind is the default kind.
pub proof fn lemma_empty_iff_default_kind(c: Clube)
    requires
        c.wf(),
    ensures
        (c.visibility == VoxelVisibility::Empty) <==> (c.identifier == default_kind()),
{
}

} // verus!
