//! Texture loading plan, the readiness gate, and the table of atlas slots
//! built once every texture is resident.

use vstd::prelude::*;
use crate::kind::{catalog, default_kind, kind_name, lemma_kind_name_injective, ClubeType};
use crate::name_map::{lookup, NameMap};

verus! {

/// The images a kind needs, in the order their loads are requested.
pub open spec fn kind_images(k: ClubeType) -> Seq<Seq<char>> {
    match k {
        ClubeType::Air => Seq::empty(),
        ClubeType::Dirt => seq!["textures/dirt.png"@],
        ClubeType::Grass => seq!["textures/dirt.png"@, "textures/grass.png"@, "textures/grass_side.png"@],
        ClubeType::Stone => seq!["textures/stone.png"@],
        ClubeType::Wood => seq!["textures/wood.png"@],
    }
}

/// For each cube face (+Y, -Y, then the four sides), the position in
/// `kind_images` of the image it shows.
pub open spec fn kind_faces(k: ClubeType) -> Seq<usize> {
    match k {
        ClubeType::Grass => seq![1usize, 0, 2, 2, 2, 2],
        _ => seq![0usize, 0, 0, 0, 0, 0],
    }
}

/// The kinds of `ks` that need textures, in order.
pub open spec fn textured_kinds(ks: Seq<ClubeType>) -> Seq<ClubeType>
    decreases ks.len(),
{
    if ks.len() == 0 {
        Seq::empty()
    } else if ks.last() == default_kind() {
        textured_kinds(ks.drop_last())
    } else {
        textured_kinds(ks.drop_last()).push(ks.last())
    }
}

/// The kinds for which textures are loaded: every catalog kind but the empty one.
pub open spec fn load_plan() -> Seq<ClubeType> {
    textured_kinds(catalog())
}

/// The loads requested for one kind, and which of them each face shows.
#[derive(Debug)]
pub struct KindTextures {
    pub kind: ClubeType,
    pub images: Vec<String>,
    pub faces: [usize; 6],
}

impl KindTextures {
    /// The images and face mapping that belong to `kind`.
    pub open spec fn describes(&self, kind: ClubeType) -> bool {
        &&& self.kind == kind
        &&& self.images@.map_values(|s: String| s@) == kind_images(kind)
        &&& self.faces@ == kind_faces(kind)
    }
}

/// The load state of one requested image.
#[derive(Clone, Copy, Debug, PartialEq, Eq, Structural, Hash)]
pub enum LoadState {
    NotLoaded,
    Loading,
    Loaded,
    Failed,
    Unloaded,
}

/// The atlas slots of each kind's six faces, keyed by kind name.
pub struct ClubeAssetRegistry {
    pub texture_indexes: NameMap<[usize; 6]>,
}

/// `slots` holds one atlas slot for each image that the kinds of `kinds` request.
pub open spec fn slots_fit(kinds: Seq<ClubeType>, slots: Seq<Seq<usize>>) -> bool {
    &&& slots.len() == kinds.len()
    &&& forall|i: int| 0 <= i < kinds.len() ==> #[trigger] slots[i].len() == kind_images(kinds[i]).len()
}

/// `m` gives each kind of `kinds`, and nothing else, the slots of the images
/// its faces show.
pub open spec fn registry_matches(
    m: Map<Seq<char>, [usize; 6]>,
    kinds: Seq<ClubeType>,
    slots: Seq<Seq<usize>>,
) -> bool {
    &&& forall|i: int|
        0 <= i < kinds.len() ==> #[trigger] m.contains_key(kind_name(kinds[i])) && forall|f: int|
            0 <= f < 6 ==> m[kind_name(kinds[i])][f] == slots[i][kind_faces(kinds[i])[f] as int]
    &&& forall|k: Seq<char>|
        #[trigger] m.contains_key(k) ==> exists|i: int| 0 <= i < kinds.len() && kind_name(kinds[i]) == k
}

/// Whether a gate with latch `completed` builds on a tick where readiness is
/// `ready`, and the latch afterwards.
pub open spec fn gate_step(completed: bool, ready: bool) -> (bool, bool) {
    if !completed && ready {
        (true, true)
    } else {
        (false, completed)
    }
}

/// The number of builds over ticks whose readiness is `readies`, from latch `completed`.
pub open spec fn gate_builds(completed: bool, readies: Seq<bool>) -> nat
    decreases readies.len(),
{
    if readies.len() == 0 {
        0
    } else {
        let (build, next) = gate_step(completed, readies[0]);
        (if build { 1nat } else { 0nat }) + gate_builds(next, readies.drop_first())
    }
}

/// The phases of a session: textures load, then the world is set up.
#[derive(Clone, Copy, Debug, PartialEq, Eq, Structural, Hash)]
pub enum GameState {
    Loading,
    Menu,
    Game,
}

impl Default for GameState {
    fn default() -> (r: GameState)
        ensures
            r == GameState::Loading,
    {
        GameState::Loading
    }
}

/// Every texture of the plan is resident.
pub open spec fn all_loaded(states: Seq<LoadState>) -> bool {
    forall|i: int| 0 <= i < states.len() ==> states[i] == LoadState::Loaded
}

fn kind_textures(kind: ClubeType) -> (r: KindTextures)
    requires
        kind != default_kind(),
    ensures
        r.describes(kind),
{
    let r = match kind {
        ClubeType::Grass => KindTextures {
            kind,
            images: vec![
                "textures/dirt.png".to_owned(),
                "textures/grass.png".to_owned(),
                "textures/grass_side.png".to_owned(),
            ],
            faces: [1, 0, 2, 2, 2, 2],
        },
        ClubeType::Dirt => KindTextures {
            kind,
            images: vec!["textures/dirt.png".to_owned()],
            faces: [0; 6],
        },
        ClubeType::Stone => KindTextures {
            kind,
            images: vec!["textures/stone.png".to_owned()],
            faces: [0; 6],
        },
        _ => KindTextures {
            kind,
            images: vec!["textures/wood.png".to_owned()],
            faces: [0; 6],
        },
    };
    assert(r.images@.map_values(|s: String| s@) =~= kind_images(kind));
    assert(r.faces@ =~= kind_faces(kind));
    r
}

/// The texture loads to request: for each catalog kind but the empty one,
/// in catalog order, its images and which image each face shows.
pub fn load_textures() -> (r: Vec<KindTextures>)
    ensures
        r@.len() == load_plan().len(),
        forall|i: int| 0 <= i < r@.len() ==> #[trigger] r@[i].describes(load_plan()[i]),
{
    let kinds = ClubeType::all_kinds();
    let mut r: Vec<KindTextures> = Vec::new();
    let mut i: usize = 0;
    while i < kinds.len()
        invariant
            kinds@ == catalog(),
            i <= kinds@.len(),
            r@.len() == textured_kinds(kinds@.take(i as int)).len(),
            forall|j: int|
                0 <= j < r@.len() ==> #[trigger] r@[j].describes(textured_kinds(kinds@.take(i as int))[j]),
        decreases kinds.len() - i,
    {
        let kind = kinds[i];
        assert(kinds@.take(i + 1).drop_last() =~= kinds@.take(i as int));
        if !kind.is_default() {
            r.push(kind_textures(kind));
        }
        i = i + 1;
    }
    assert(kinds@.take(i as int) =~= kinds@);
    r
}

/// Whether every requested texture has finished loading. Pending and failed
/// loads both count as not ready.
pub fn poll_ready(states: &Vec<LoadState>) -> (r: bool)
    ensures
        r == all_loaded(states@),
{
    let mut i: usize = 0;
    while i < states.len()
        invariant
            i <= states@.len(),
            forall|j: int| 0 <= j < i ==> states@[j] == LoadState::Loaded,
        decreases states.len() - i,
    {
        if states[i] != LoadState::Loaded {
            return false;
        }
        i = i + 1;
    }
    true
}

/// One tick of the readiness gate: returns whether the asset registry is to
/// be built now. That is so on the first tick on which every texture is
/// loaded; the latch `completed` then stays set and later ticks do nothing.
pub fn create_registry(completed: &mut bool, states: &Vec<LoadState>) -> (build: bool)
    ensures
        (build, *final(completed)) == gate_step(*old(completed), all_loaded(states@)),
{
    if !*completed {
        if !poll_ready(states) {
            return false;
        }
        *completed = true;
        return true;
    }
    false
}

/// Once the latch is set, any number of further ticks builds nothing.
pub proof fn lemma_gate_latched(readies: Seq<bool>)
    ensures
        gate_builds(true, readies) == 0,
    decreases readies.len(),
{
    if readies.len() > 0 {
        lemma_gate_latched(readies.drop_first());
    }
}

/// From an unset latch, a run of ticks builds the registry exactly once if
/// some tick finds every texture loaded, and never otherwise.
pub proof fn lemma_gate_builds_once(readies: Seq<bool>)
    ensures
        gate_builds(false, readies) == (if exists|i: int| 0 <= i < readies.len() && readies[i] {
            1nat
        } else {
            0nat
        }),
    decreases readies.len(),
{
    if readies.len() > 0 {
        let rest = readies.drop_first();
        if readies[0] {
            lemma_gate_latched(rest);
        } else {
            lemma_gate_builds_once(rest);
            if exists|i: int| 0 <= i < readies.len() && readies[i] {
                let i = choose|i: int| 0 <= i < readies.len() && readies[i];
                assert(rest[i - 1]);
            }
            if exists|i: int| 0 <= i < rest.len() && rest[i] {
                let i = choose|i: int| 0 <= i < rest.len() && rest[i];
                assert(readies[i + 1]);
            }
        }
    }
}

/// The slots handed to the builder, as sequences.
pub open spec fn slots_view(slots: Seq<Vec<usize>>) -> Seq<Seq<usize>> {
    slots.map_values(|v: Vec<usize>| v@)
}

/// The textured kinds, written out.
pub proof fn lemma_load_plan()
    ensures
        load_plan() == seq![ClubeType::Dirt, ClubeType::Grass, ClubeType::Stone, ClubeType::Wood],
{
    let c = catalog();
    let c4 = seq![ClubeType::Air, ClubeType::Dirt, ClubeType::Grass, ClubeType::Stone];
    let c3 = seq![ClubeType::Air, ClubeType::Dirt, ClubeType::Grass];
    let c2 = seq![ClubeType::Air, ClubeType::Dirt];
    let c1 = seq![ClubeType::Air];
    assert(c.drop_last() =~= c4);
    assert(c4.drop_last() =~= c3);
    assert(c3.drop_last() =~= c2);
    assert(c2.drop_last() =~= c1);
    assert(c1.drop_last() =~= Seq::<ClubeType>::empty());
    assert(textured_kinds(Seq::<ClubeType>::empty()) =~= Seq::<ClubeType>::empty());
    assert(c1.last() == ClubeType::Air);
    assert(c2.last() == ClubeType::Dirt);
    assert(c3.last() == ClubeType::Grass);
    assert(c4.last() == ClubeType::Stone);
    assert(c.last() == ClubeType::Wood);
    assert(textured_kinds(c1) =~= Seq::<ClubeType>::empty());
    assert(textured_kinds(c2) =~= seq![ClubeType::Dirt]);
    assert(textured_kinds(c3) =~= seq![ClubeType::Dirt, ClubeType::Grass]);
    assert(textured_kinds(c4) =~= seq![ClubeType::Dirt, ClubeType::Grass, ClubeType::Stone]);
    assert(textured_kinds(c) =~= seq![ClubeType::Dirt, ClubeType::Grass, ClubeType::Stone, ClubeType::Wood]);
}

/// Each face of a textured kind shows one of the kind's own images.
proof fn lemma_faces_in_range(k: ClubeType)
    requires
        k != default_kind(),
    ensures
        kind_faces(k).len() == 6,
        forall|f: int| 0 <= f < 6 ==> #[trigger] kind_faces(k)[f] < kind_images(k).len(),
{
}

impl ClubeAssetRegistry {
    /// Builds the slot table from the atlas slot of each requested image:
    /// `slots[i][j]` is the slot of image `j` of the `i`-th entry of
    /// `load_textures()`. `None` when `slots` does not have that shape.
    pub fn build(slots: &Vec<Vec<usize>>) -> (r: Option<ClubeAssetRegistry>)
        ensures
            r is Some <==> slots_fit(load_plan(), slots_view(slots@)),
            r matches Some(reg) ==> registry_matches(
                reg.texture_indexes@,
                load_plan(),
                slots_view(slots@),
            ),
    {
        let plan = load_textures();
        let ghost kinds = load_plan();
        let ghost sv = slots_view(slots@);
        proof {
            lemma_load_plan();
        }
        if slots.len() != plan.len() {
            return None;
        }
        let mut m: NameMap<[usize; 6]> = NameMap::new();
        let mut i: usize = 0;
        while i < plan.len()
            invariant
                kinds == load_plan(),
                kinds == seq![ClubeType::Dirt, ClubeType::Grass, ClubeType::Stone, ClubeType::Wood],
                sv == slots_view(slots@),
                plan@.len() == kinds.len(),
                slots@.len() == kinds.len(),
                forall|j: int| 0 <= j < plan@.len() ==> #[trigger] plan@[j].describes(kinds[j]),
                i <= plan@.len(),
                forall|j: int| 0 <= j < i ==> #[trigger] sv[j].len() == kind_images(kinds[j]).len(),
                forall|j: int|
                    0 <= j < i ==> #[trigger] m@.contains_key(kind_name(kinds[j])) && forall|f: int|
                        0 <= f < 6 ==> m@[kind_name(kinds[j])][f] == sv[j][kind_faces(kinds[j])[f] as int],
                forall|k: Seq<char>|
                    #[trigger] m@.contains_key(k) ==> exists|j: int| 0 <= j < i && kind_name(kinds[j]) == k,
            decreases plan.len() - i,
        {
            let s = &slots[i];
            let entry = &plan[i];
            assert(sv[i as int] == s@);
            assert(plan@[i as int].describes(kinds[i as int]));
            assert(entry.images@.map_values(|t: String| t@).len() == entry.images@.len());
            if s.len() != entry.images.len() {
                assert(sv[i as int].len() != kind_images(kinds[i as int]).len());
                return None;
            }
            let faces = entry.faces;
            proof {
                lemma_faces_in_range(kinds[i as int]);
            }
            assert(forall|f: int| 0 <= f < 6 ==> faces[f] == kind_faces(kinds[i as int])[f]);
            let a: [usize; 6] = [s[faces[0]], s[faces[1]], s[faces[2]], s[faces[3]], s[faces[4]], s[faces[5]]];
            assert forall|f: int| 0 <= f < 6 implies a[f] == sv[i as int][kind_faces(kinds[i as int])[f] as int] by {
                if f == 0 {
                } else if f == 1 {
                } else if f == 2 {
                } else if f == 3 {
                } else if f == 4 {
                } else {
                }
            }
            let name = entry.kind.name();
            let ghost key = kind_name(kinds[i as int]);
            let ghost before = m@;
            m.insert(name, a);
            proof {
                assert(name@ == key);
                assert(m@ == before.insert(key, a));
                assert forall|j: int| 0 <= j < i + 1 implies #[trigger] m@.contains_key(kind_name(kinds[j]))
                    && forall|f: int| 0 <= f < 6 ==> m@[kind_name(kinds[j])][f] == sv[j][kind_faces(kinds[j])[f] as int] by {
                    if j < i {
                        lemma_kind_name_injective(kinds[j], kinds[i as int]);
                        assert(kinds[j] != kinds[i as int]);
                        assert(before.contains_key(kind_name(kinds[j])));
                        assert(m@[kind_name(kinds[j])] == before[kind_name(kinds[j])]);
                    } else {
                        assert(m@[key] == a);
                    }
                }
                assert forall|k: Seq<char>| #[trigger] m@.contains_key(k) implies exists|j: int| 0 <= j < i + 1 && kind_name(kinds[j]) == k by {
                    if k != key {
                        assert(before.contains_key(k));
                    }
                }
            }
            i = i + 1;
        }
        Some(ClubeAssetRegistry { texture_indexes: m })
    }
}

/// Once the asset registry is built, every catalog kind but the empty one
/// has an entry in it.
pub proof fn lemma_catalog_registered(m: Map<Seq<char>, [usize; 6]>, slots: Seq<Seq<usize>>, k: ClubeType)
    requires
        registry_matches(m, load_plan(), slots),
        catalog().contains(k),
        k != default_kind(),
    ensures
        m.contains_key(kind_name(k)),
        lookup(m, kind_name(k)) is Some,
{
    lemma_load_plan();
    let i: int = match k {
        ClubeType::Dirt => 0,
        ClubeType::Grass => 1,
        ClubeType::Stone => 2,
        _ => 3,
    };
    assert(load_plan()[i] == k);
}

} // verus!
