use pyrev::common::order_map::OrderMap;

fn keys_of(m: &OrderMap<String, usize>) -> Vec<String> {
    m.keys().into_iter().cloned().collect()
}

#[test]
fn insert_of_a_present_key_replaces_its_value_in_place() {
    let mut m: OrderMap<String, usize> = OrderMap::new();
    m.insert("a".to_string(), 1);
    m.insert("b".to_string(), 2);
    m.insert("a".to_string(), 3);
    assert_eq!(keys_of(&m), vec!["a", "b"]);
    assert_eq!(m.get(&"a".to_string()), Some(&3));
    assert_eq!(m.get(&"b".to_string()), Some(&2));
    assert_eq!(m.get(&"c".to_string()), None);
}

#[test]
fn extend_appends_only_new_keys_in_order() {
    let mut a: OrderMap<String, usize> = OrderMap::new();
    a.insert("x".to_string(), 1);
    a.insert("y".to_string(), 2);
    let mut b: OrderMap<String, usize> = OrderMap::new();
    b.insert("z".to_string(), 10);
    b.insert("x".to_string(), 20);
    b.insert("w".to_string(), 30);
    a.extend(b);
    assert_eq!(keys_of(&a), vec!["x", "y", "z", "w"]);
    assert_eq!(a.get(&"x".to_string()), Some(&1));
    assert_eq!(a.get(&"z".to_string()), Some(&10));
    assert_eq!(a.get(&"w".to_string()), Some(&30));
}
