use tee_worker::keyed::KeyedMap;

fn key(byte: u8) -> [u8; 32] {
    let mut key = [0u8; 32];
    key[5] = byte;
    key
}

#[test]
fn a_new_map_is_empty() {
    let map: KeyedMap<u64> = KeyedMap::new();
    assert_eq!(map.len(), 0);
    assert!(!map.contains_key(&key(1)));
    assert_eq!(map.get(&key(1)), None);
    assert_eq!(map.position(&key(1)), None);
}

#[test]
fn insert_keeps_one_value_per_key_and_the_order_of_arrival() {
    let mut map: KeyedMap<u64> = KeyedMap::new();
    map.insert(key(3), 30);
    map.insert(key(1), 10);
    map.insert(key(2), 20);
    map.insert(key(1), 11);
    assert_eq!(map.len(), 3);
    assert_eq!(map.get(&key(1)), Some(&11));
    assert_eq!(map.get(&key(2)), Some(&20));
    assert_eq!(map.get(&key(3)), Some(&30));
    assert_eq!(map.position(&key(3)), Some(0));
    assert_eq!(map.position(&key(1)), Some(1));
    assert_eq!(map.position(&key(2)), Some(2));
    assert_eq!(map.entry_at(1).key, key(1));
    assert_eq!(map.entry_at(1).value, 11);
}

#[test]
fn remove_returns_the_value_and_closes_the_gap() {
    let mut map: KeyedMap<&str> = KeyedMap::new();
    map.insert(key(1), "one");
    map.insert(key(2), "two");
    map.insert(key(3), "three");
    assert_eq!(map.remove(&key(4)), None);
    assert_eq!(map.len(), 3);
    assert_eq!(map.remove(&key(2)), Some("two"));
    assert_eq!(map.remove(&key(2)), None);
    assert_eq!(map.len(), 2);
    assert!(!map.contains_key(&key(2)));
    assert_eq!(map.entry_at(0).key, key(1));
    assert_eq!(map.entry_at(1).key, key(3));
    map.insert(key(2), "two again");
    assert_eq!(map.position(&key(2)), Some(2));
}
