//! The closed catalog of block kinds and their stable names.

use vstd::prelude::*;

verus! {

/// A block's logical type. `Air` is the empty kind and the default.
#[derive(Clone, Copy, Debug, PartialEq, Eq, Structural, Hash)]
pub enum ClubeType {
    Air,
    Dirt,
    Grass,
    Stone,
    Wood,
}

/// The stable name of a kind: the lookup key into texture and geometry tables.
pub open spec fn kind_name(k: ClubeType) -> Seq<char> {
    match k {
        ClubeType::Air => "Air"@,
        ClubeType::Dirt => "Dirt"@,
        ClubeType::Grass => "Grass"@,
        ClubeType::Stone => "Stone"@,
        ClubeType::Wood => "Wood"@,
    }
}

/// Every kind, in catalog order.
pub open spec fn catalog() -> Seq<ClubeType> {
    seq![ClubeType::Air, ClubeType::Dirt, ClubeType::Grass, ClubeType::Stone, ClubeType::Wood]
}

/// The empty kind.
pub open spec fn default_kind() -> ClubeType {
    ClubeType::Air
}

/// Distinct kinds have distinct names.
pub proof fn lemma_kind_name_injective(a: ClubeType, b: ClubeType)
    ensures
        kind_name(a) == kind_name(b) <==> a == b,
{
    reveal_strlit("Air");
    reveal_strlit("Dirt");
    reveal_strlit("Grass");
    reveal_strlit("Stone");
    reveal_strlit("Wood");
    if a != b {
        assert(kind_name(a)[0] != kind_name(b)[0] || kind_name(a).len() != kind_name(b).len()
            || kind_name(a)[1] != kind_name(b)[1]);
    }
}

impl Default for ClubeType {
    fn default() -> (r: ClubeType)
        ensures
            r == default_kind(),
    {
        ClubeType::Air
    }
}

impl ClubeType {
    /// All kinds in a fixed order; the same on every call.
    pub fn all_kinds() -> (r: Vec<ClubeType>)
        ensures
            r@ == catalog(),
    {
        let r = vec![ClubeType::Air, ClubeType::Dirt, ClubeType::Grass, ClubeType::Stone, ClubeType::Wood];
        assert(r@ =~= catalog());
        r
    }

    /// The kind's stable name.
    pub fn name(&self) -> (r: String)
        ensures
            r@ == kind_name(*self),
    {
        match self {
            ClubeType::Air => "Air".to_owned(),
            ClubeType::Dirt => "Dirt".to_owned(),
            ClubeType::Grass => "Grass".to_owned(),
            ClubeType::Stone => "Stone".to_owned(),
            ClubeType::Wood => "Wood".to_owned(),
        }
    }

    /// Whether this is the empty kind.
    pub fn is_default(&self) -> (r: bool)
        ensures
            r == (*self == default_kind()),
    {
        *self == ClubeType::Air
    }
}

} // verus!
