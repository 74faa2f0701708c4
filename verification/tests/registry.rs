use study_server::registry::Registry;

#[test]
fn registry_insert_get_remove() {
    let mut r: Registry<u32> = Registry::new();
    assert_eq!(r.len(), 0);
    assert_eq!(r.insert("a".to_string(), 1), None);
    assert_eq!(r.insert("b".to_string(), 2), None);
    assert_eq!(r.insert("a".to_string(), 3), Some(1));
    assert_eq!(r.len(), 2);
    assert_eq!(r.get(&"a".to_string()), Some(&3));
    assert!(r.contains_key(&"b".to_string()));
    let mut keys = r.keys();
    keys.sort();
    assert_eq!(keys, vec!["a".to_string(), "b".to_string()]);
    assert_eq!(r.remove(&"a".to_string()), Some(3));
    assert_eq!(r.remove(&"a".to_string()), None);
    assert_eq!(r.get(&"a".to_string()), None);
    assert_eq!(r.len(), 1);
    r.clear();
    assert_eq!(r.len(), 0);
    assert!(!r.contains_key(&"b".to_string()));
}
