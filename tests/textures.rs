use viassic_common::kind::ClubeType;
use viassic_common::textures::{create_registry, load_textures, poll_ready, ClubeAssetRegistry, LoadState};

/// One atlas slot per requested image, numbered in request order.
fn sequential_slots() -> Vec<Vec<usize>> {
    let mut next = 0;
    load_textures()
        .iter()
        .map(|k| {
            k.images
                .iter()
                .map(|_| {
                    next += 1;
                    next - 1
                })
                .collect()
        })
        .collect()
}

#[test]
fn plan_skips_the_empty_kind() {
    let plan = load_textures();
    let kinds: Vec<ClubeType> = plan.iter().map(|k| k.kind).collect();
    assert_eq!(kinds, vec![ClubeType::Dirt, ClubeType::Grass, ClubeType::Stone, ClubeType::Wood]);
}

#[test]
fn plan_request_counts() {
    let plan = load_textures();
    let counts: Vec<usize> = plan.iter().map(|k| k.images.len()).collect();
    assert_eq!(counts, vec![1, 3, 1, 1]);
    // Dirt, Grass and Stone together: five requests for three kinds.
    assert_eq!(counts[0] + counts[1] + counts[2], 5);
    assert_eq!(plan[0].images, vec!["textures/dirt.png"]);
    assert_eq!(
        plan[1].images,
        vec!["textures/dirt.png", "textures/grass.png", "textures/grass_side.png"]
    );
    assert_eq!(plan[1].faces, [1, 0, 2, 2, 2, 2]);
    assert_eq!(plan[0].faces, [0; 6]);
    assert_eq!(plan[3].images, vec!["textures/wood.png"]);
}

#[test]
fn poll_ready_needs_every_load() {
    assert!(poll_ready(&vec![]));
    assert!(poll_ready(&vec![LoadState::Loaded; 5]));
    assert!(!poll_ready(&vec![LoadState::Loaded, LoadState::Loaded, LoadState::Loading, LoadState::Loaded, LoadState::Loaded]));
    assert!(!poll_ready(&vec![LoadState::Loaded, LoadState::NotLoaded]));
    assert!(!poll_ready(&vec![LoadState::Failed, LoadState::Loaded]));
    assert!(!poll_ready(&vec![LoadState::Loaded, LoadState::Unloaded]));
}

#[test]
fn gate_builds_exactly_once() {
    let pending = vec![LoadState::Loaded, LoadState::Loading];
    let ready = vec![LoadState::Loaded; 2];
    let mut completed = false;
    assert!(!create_registry(&mut completed, &pending));
    assert!(!completed);
    assert!(!create_registry(&mut completed, &pending));
    assert!(create_registry(&mut completed, &ready));
    assert!(completed);
    let mut builds = 1;
    for _ in 0..10 {
        if create_registry(&mut completed, &ready) {
            builds += 1;
        }
        assert!(completed);
    }
    assert_eq!(builds, 1);
}

#[test]
fn build_records_face_slots() {
    let reg = ClubeAssetRegistry::build(&sequential_slots()).unwrap();
    let dirt = *reg.texture_indexes.get(&"Dirt".to_string()).unwrap();
    assert_eq!(dirt, [0; 6]);
    let grass = *reg.texture_indexes.get(&"Grass".to_string()).unwrap();
    assert_eq!(grass, [2, 1, 3, 3, 3, 3]);
    assert_ne!(grass[0], grass[1]);
    assert!(grass[2..].iter().all(|&s| s != grass[0] && s != grass[1]));
    let mut distinct = grass.to_vec();
    distinct.sort();
    distinct.dedup();
    assert_eq!(distinct.len(), 3);
    assert_eq!(*reg.texture_indexes.get(&"Stone".to_string()).unwrap(), [4; 6]);
    assert_eq!(*reg.texture_indexes.get(&"Wood".to_string()).unwrap(), [5; 6]);
    assert_eq!(reg.texture_indexes.get(&"Air".to_string()), None);
}

#[test]
fn build_rejects_wrong_shape() {
    let mut slots = sequential_slots();
    slots[1].pop();
    assert!(ClubeAssetRegistry::build(&slots).is_none());
    let mut slots = sequential_slots();
    slots.pop();
    assert!(ClubeAssetRegistry::build(&slots).is_none());
    assert!(ClubeAssetRegistry::build(&vec![]).is_none());
}
