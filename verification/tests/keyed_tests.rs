use pg_dashboard::keyed::IdMap;

#[test]
fn a_new_map_is_empty() {
    let map: IdMap<u32> = IdMap::new();
    assert_eq!(map.len(), 0);
    assert!(!map.contains_key("a"));
    assert_eq!(map.get("a"), None);
}

#[test]
fn an_inserted_value_is_found_by_its_id() {
    let mut map: IdMap<u32> = IdMap::new();
    map.insert("a".to_string(), 1);
    map.insert("b".to_string(), 2);
    assert_eq!(map.len(), 2);
    assert_eq!(map.get("a"), Some(&1));
    assert_eq!(map.get("b"), Some(&2));
    assert_eq!(map.get("c"), None);
    assert!(map.contains_key("b"));
}

#[test]
fn inserting_again_replaces_the_value() {
    let mut map: IdMap<u32> = IdMap::new();
    map.insert("a".to_string(), 1);
    map.insert("b".to_string(), 2);
    map.insert("a".to_string(), 3);
    assert_eq!(map.len(), 2);
    assert_eq!(map.get("a"), Some(&3));
    assert_eq!(map.get("b"), Some(&2));
}

#[test]
fn a_removed_id_is_gone_and_the_others_stay() {
    let mut map: IdMap<u32> = IdMap::new();
    map.insert("a".to_string(), 1);
    map.insert("b".to_string(), 2);
    map.insert("c".to_string(), 3);
    map.remove("b");
    assert_eq!(map.len(), 2);
    assert_eq!(map.get("a"), Some(&1));
    assert_eq!(map.get("b"), None);
    assert_eq!(map.get("c"), Some(&3));
    map.remove("zzz");
    assert_eq!(map.len(), 2);
}
