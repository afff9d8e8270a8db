use tenant_tail_core::sorted_map::SortedMap;

fn keys<V>(m: &SortedMap<V>) -> Vec<&str> {
    m.entries().iter().map(|(k, _)| k.as_str()).collect()
}

#[test]
fn sorted_map_keeps_keys_ascending() {
    let mut m = SortedMap::new();
    for k in ["m", "b", "z", "a", "ä", "B"] {
        m.insert(k.to_string(), k.len());
    }
    assert_eq!(keys(&m), vec!["B", "a", "b", "m", "z", "ä"]);
    assert_eq!(m.len(), 6);
}

#[test]
fn sorted_map_insert_replaces_the_value() {
    let mut m = SortedMap::new();
    m.insert("k".to_string(), 1);
    m.insert("j".to_string(), 2);
    m.insert("k".to_string(), 3);
    assert_eq!(m.entries(), &vec![("j".to_string(), 2), ("k".to_string(), 3)]);
}

#[test]
fn sorted_map_from_entries_later_item_wins() {
    let m = SortedMap::from_entries(vec![
        ("b".to_string(), 1),
        ("a".to_string(), 2),
        ("b".to_string(), 3),
    ]);
    assert_eq!(m.into_entries(), vec![("a".to_string(), 2), ("b".to_string(), 3)]);
}

#[test]
fn sorted_map_clone_is_equal() {
    let m = SortedMap::from_entries(vec![("x".to_string(), "1".to_string()), ("a".to_string(), "2".to_string())]);
    assert_eq!(m.clone(), m);
}
