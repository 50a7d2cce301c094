//! Cube and face shape descriptors, and the registry that maps a geometry
//! namespace to its descriptor.

use vstd::prelude::*;
use crate::name_map::NameMap;
use crate::palette::PaletteValue;

verus! {

/// A point or rotation in block-local units.
pub type Triple = (i32, i32, i32);

/// A UV rectangle: origin and size in texture pixels.
pub type UvRect = ((i32, i32), (i32, i32));

/// One box of a block's shape, with per-side texturing and culling.
#[derive(Clone, Copy, Debug)]
pub struct FaceDescript {
    pub uv: [UvRect; 6],
    pub discard: [bool; 6],
    pub texture_variance: [bool; 6],
    pub cull: [bool; 6],
    pub origin: Triple,
    pub end: Triple,
    pub rotation: Triple,
    pub pivot: Triple,
}

/// The boxes that make up a block's shape.
#[derive(Debug)]
pub struct BlockGeo {
    pub pivot: Triple,
    pub rotation: Triple,
    pub cubes: Vec<FaceDescript>,
}

/// A named shape: its boxes and which sides it occludes.
#[derive(Debug)]
pub struct Geometry {
    pub namespace: String,
    pub name: String,
    pub blocks: [bool; 6],
    pub blocks_self: Option<[bool; 6]>,
    pub element: BlockGeo,
}

/// The geometry tag carried by a block instance.
#[derive(Clone, Copy, Debug, PartialEq, Eq, Structural, Hash)]
pub enum BlockGeometry {
    Block,
    Slab,
}

/// The registry key of a geometry tag.
pub open spec fn geo_namespace(g: BlockGeometry) -> Seq<char> {
    match g {
        BlockGeometry::Block => "vinox:block"@,
        BlockGeometry::Slab => "vinox:slab"@,
    }
}

/// Maps a geometry namespace to its descriptor.
pub type GeometryRegistry = NameMap<Geometry>;

fn same_flags(a: &[bool; 6], b: &[bool; 6]) -> (r: bool)
    ensures
        r == (*a == *b),
{
    let mut i: usize = 0;
    while i < 6
        invariant
            i <= 6,
            forall|j: int| 0 <= j < i ==> a[j] == b[j],
        decreases 6 - i,
    {
        if a[i] != b[i] {
            return false;
        }
        i = i + 1;
    }
    assert(*a =~= *b);
    true
}

fn same_uvs(a: &[UvRect; 6], b: &[UvRect; 6]) -> (r: bool)
    ensures
        r == (*a == *b),
{
    let mut i: usize = 0;
    while i < 6
        invariant
            i <= 6,
            forall|j: int| 0 <= j < i ==> a[j] == b[j],
        decreases 6 - i,
    {
        let (p, q) = (a[i], b[i]);
        if p.0.0 != q.0.0 || p.0.1 != q.0.1 || p.1.0 != q.1.0 || p.1.1 != q.1.1 {
            return false;
        }
        i = i + 1;
    }
    assert(*a =~= *b);
    true
}

fn same_triple(a: Triple, b: Triple) -> (r: bool)
    ensures
        r == (a == b),
{
    a.0 == b.0 && a.1 == b.1 && a.2 == b.2
}

impl FaceDescript {
    /// Whether the two boxes are equal in every field.
    pub fn same_face(&self, other: &FaceDescript) -> (r: bool)
        ensures
            r == (*self == *other),
    {
        same_uvs(&self.uv, &other.uv) && same_flags(&self.discard, &other.discard)
            && same_flags(&self.texture_variance, &other.texture_variance)
            && same_flags(&self.cull, &other.cull) && same_triple(self.origin, other.origin)
            && same_triple(self.end, other.end) && same_triple(self.rotation, other.rotation)
            && same_triple(self.pivot, other.pivot)
    }
}

impl View for BlockGeo {
    type V = (Triple, Triple, Seq<FaceDescript>);

    open spec fn view(&self) -> (Triple, Triple, Seq<FaceDescript>) {
        (self.pivot, self.rotation, self.cubes@)
    }
}

impl PaletteValue for BlockGeo {
    fn same(&self, other: &Self) -> (r: bool) {
        if !same_triple(self.pivot, other.pivot) || !same_triple(self.rotation, other.rotation)
            || self.cubes.len() != other.cubes.len() {
            return false;
        }
        let n = self.cubes.len();
        let mut i: usize = 0;
        while i < n
            invariant
                n == self.cubes.len(),
                n == other.cubes.len(),
                i <= n,
                forall|j: int| 0 <= j < i ==> self.cubes@[j] == other.cubes@[j],
            decreases n - i,
        {
            if !self.cubes[i].same_face(&other.cubes[i]) {
                return false;
            }
            i = i + 1;
        }
        assert(self.cubes@ =~= other.cubes@);
        true
    }
}

impl BlockGeo {
    /// A copy with the same pivot, rotation and boxes.
    pub fn copy_of(&self) -> (r: BlockGeo)
        ensures
            r@ == self@,
    {
        let mut cubes: Vec<FaceDescript> = Vec::new();
        let mut i: usize = 0;
        while i < self.cubes.len()
            invariant
                i <= self.cubes.len(),
                cubes@ == self.cubes@.take(i as int),
            decreases self.cubes.len() - i,
        {
            cubes.push(self.cubes[i]);
            i = i + 1;
            assert(cubes@ =~= self.cubes@.take(i as int));
        }
        assert(cubes@ =~= self.cubes@);
        BlockGeo { pivot: self.pivot, rotation: self.rotation, cubes }
    }
}

impl BlockGeometry {
    /// The registry key of this tag.
    pub fn get_geo_namespace(&self) -> (r: String)
        ensures
            r@ == geo_namespace(*self),
    {
        match self {
            BlockGeometry::Block => "vinox:block".to_owned(),
            BlockGeometry::Slab => "vinox:slab".to_owned(),
        }
    }
}

/// Six equal flags.
pub open spec fn all_sides(b: bool) -> [bool; 6] {
    [b, b, b, b, b, b]
}

/// The box of a full cube.
pub open spec fn full_block_face() -> FaceDescript {
    FaceDescript {
        uv: [
            ((0, 0), (16, 16)),
            ((0, 0), (16, 16)),
            ((0, 0), (16, 16)),
            ((0, 0), (16, 16)),
            ((0, 0), (16, 16)),
            ((0, 0), (16, 16)),
        ],
        discard: all_sides(false),
        texture_variance: all_sides(false),
        cull: all_sides(true),
        origin: (0, 0, 0),
        end: (16, 16, 16),
        rotation: (0, 0, 0),
        pivot: (8, 8, 8),
    }
}

/// The box of a bottom half block.
pub open spec fn slab_face() -> FaceDescript {
    FaceDescript {
        uv: [
            ((0, 0), (16, 8)),
            ((0, 0), (16, 8)),
            ((16, 16), (-16i32, -16i32)),
            ((16, 16), (-16i32, -16i32)),
            ((0, 0), (16, 8)),
            ((0, 0), (16, 8)),
        ],
        discard: all_sides(false),
        texture_variance: all_sides(false),
        cull: [true, true, true, false, true, true],
        origin: (0, 0, 0),
        end: (16, 8, 16),
        rotation: (0, 0, 0),
        pivot: (8, 8, 8),
    }
}

impl Geometry {
    /// A full cube: one box over the whole block, occluding every neighbour.
    pub fn full_block() -> (r: Geometry)
        ensures
            r.namespace@ == "vinox"@,
            r.name@ == "block"@,
            r.blocks == all_sides(true),
            r.blocks_self == None::<[bool; 6]>,
            r.element@ == ((0i32, 0i32, 0i32), (0i32, 0i32, 0i32), seq![full_block_face()]),
    {
        let face = FaceDescript {
            uv: [
                ((0, 0), (16, 16)),
                ((0, 0), (16, 16)),
                ((0, 0), (16, 16)),
                ((0, 0), (16, 16)),
                ((0, 0), (16, 16)),
                ((0, 0), (16, 16)),
            ],
            discard: [false, false, false, false, false, false],
            texture_variance: [false, false, false, false, false, false],
            cull: [true, true, true, true, true, true],
            origin: (0, 0, 0),
            end: (16, 16, 16),
            rotation: (0, 0, 0),
            pivot: (8, 8, 8),
        };
        let cubes = vec![face];
        assert(cubes@ =~= seq![full_block_face()]);
        Geometry {
            namespace: "vinox".to_owned(),
            name: "block".to_owned(),
            blocks: [true, true, true, true, true, true],
            blocks_self: None,
            element: BlockGeo { pivot: (0, 0, 0), rotation: (0, 0, 0), cubes },
        }
    }

    /// A bottom half block: it occludes the neighbour below it, and its own
    /// faces on every side but the top.
    pub fn slab() -> (r: Geometry)
        ensures
            r.namespace@ == "vinox"@,
            r.name@ == "slab"@,
            r.blocks == [false, false, true, false, false, false],
            r.blocks_self == Some([true, true, false, false, true, true]),
            r.element@ == ((0i32, 0i32, 0i32), (0i32, 0i32, 0i32), seq![slab_face()]),
    {
        let face = FaceDescript {
            uv: [
                ((0, 0), (16, 8)),
                ((0, 0), (16, 8)),
                ((16, 16), (-16, -16)),
                ((16, 16), (-16, -16)),
                ((0, 0), (16, 8)),
                ((0, 0), (16, 8)),
            ],
            discard: [false, false, false, false, false, false],
            texture_variance: [false, false, false, false, false, false],
            cull: [true, true, true, false, true, true],
            origin: (0, 0, 0),
            end: (16, 8, 16),
            rotation: (0, 0, 0),
            pivot: (8, 8, 8),
        };
        let cubes = vec![face];
        assert(cubes@ =~= seq![slab_face()]);
        Geometry {
            namespace: "vinox".to_owned(),
            name: "slab".to_owned(),
            blocks: [false, false, true, false, false, false],
            blocks_self: Some([true, true, false, false, true, true]),
            element: BlockGeo { pivot: (0, 0, 0), rotation: (0, 0, 0), cubes },
        }
    }
}

/// The registry of the built-in shapes: every geometry tag resolves in it.
pub fn standard_geometries() -> (r: GeometryRegistry)
    ensures
        forall|g: BlockGeometry| #[trigger] r@.contains_key(geo_namespace(g)),
        r@[geo_namespace(BlockGeometry::Block)].blocks == all_sides(true),
        r@[geo_namespace(BlockGeometry::Block)].element@.2 == seq![full_block_face()],
        r@[geo_namespace(BlockGeometry::Slab)].element@.2 == seq![slab_face()],
        r@[geo_namespace(BlockGeometry::Slab)].blocks == [false, false, true, false, false, false],
        r@[geo_namespace(BlockGeometry::Slab)].blocks_self == Some([true, true, false, false, true, true]),
{
    let mut r: GeometryRegistry = NameMap::new();
    r.insert(BlockGeometry::Block.get_geo_namespace(), Geometry::full_block());
    r.insert(BlockGeometry::Slab.get_geo_namespace(), Geometry::slab());
    proof {
        reveal_strlit("vinox:block");
        reveal_strlit("vinox:slab");
        assert(geo_namespace(BlockGeometry::Block)[6] != geo_namespace(BlockGeometry::Slab)[6]);
    }
    r
}

} // verus!
