use neo4rs_bolt::concurrent_hashmap::ConcurrentHashMap;

#[test]
fn test_basic_operations() {
    let map = ConcurrentHashMap::new();

    assert_eq!(map.insert("key1".to_string(), 42), None);
    assert_eq!(map.get(&"key1".to_string()), Some(42));

    assert_eq!(map.insert("key1".to_string(), 84), Some(42));
    assert_eq!(map.get(&"key1".to_string()), Some(84));

    assert!(map.contains_key(&"key1".to_string()));
    assert!(!map.contains_key(&"key2".to_string()));

    assert_eq!(map.remove(&"key1".to_string()), Some(84));
    assert_eq!(map.get(&"key1".to_string()), None);
}

#[test]
fn clones_share_the_contents() {
    let map: ConcurrentHashMap<u64, u64> = ConcurrentHashMap::with_capacity(4);
    let other = map.clone();
    assert!(map.is_empty());
    other.insert(1, 10);
    other.insert(2, 20);
    assert_eq!(map.len(), 2);
    let mut keys = map.keys();
    keys.sort();
    assert_eq!(keys, vec![1, 2]);
    let mut values = map.values();
    values.sort();
    assert_eq!(values, vec![10, 20]);
    assert_eq!(map.insert_or_update(1, 0, |v| v + 1), 11);
    assert_eq!(map.insert_or_update(3, 30, |v| v + 1), 30);
    assert_eq!(map.with_read(|m| m.len()), 3);
    map.with_write(|m| {
        m.remove(&3);
    });
    assert_eq!(other.get(&3), None);
    map.clear();
    assert!(other.is_empty());
}
