use viassic_common::kind::ClubeType;
use viassic_common::name_map::NameMap;

#[test]
fn catalog_order_and_names() {
    let kinds = ClubeType::all_kinds();
    assert_eq!(
        kinds,
        vec![ClubeType::Air, ClubeType::Dirt, ClubeType::Grass, ClubeType::Stone, ClubeType::Wood]
    );
    let names: Vec<String> = kinds.iter().map(|k| k.name()).collect();
    assert_eq!(names, vec!["Air", "Dirt", "Grass", "Stone", "Wood"]);
    assert_eq!(ClubeType::all_kinds(), kinds);
}

#[test]
fn default_kind_is_air() {
    assert_eq!(ClubeType::default(), ClubeType::Air);
    assert!(ClubeType::Air.is_default());
    assert!(!ClubeType::Stone.is_default());
}

#[test]
fn name_map_later_insert_wins() {
    let mut m: NameMap<u32> = NameMap::new();
    assert_eq!(m.get(&"a".to_string()), None);
    m.insert("a".to_string(), 1);
    m.insert("b".to_string(), 2);
    m.insert("a".to_string(), 3);
    assert_eq!(m.get(&"a".to_string()), Some(&3));
    assert_eq!(m.get(&"b".to_string()), Some(&2));
    assert_eq!(m.get(&"c".to_string()), None);
}
