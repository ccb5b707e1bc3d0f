use wallman::name_map::NameMap;

#[test]
fn a_new_map_is_empty() {
    let map: NameMap<u32> = NameMap::new();
    assert!(map.is_empty());
    assert_eq!(map.len(), 0);
    assert_eq!(map.get("a"), None);
    assert!(!map.contains_key("a"));
}

#[test]
fn insert_appends_new_names_and_replaces_in_place() {
    let mut map = NameMap::new();
    map.insert("a".to_string(), 1u32);
    map.insert("b".to_string(), 2u32);
    map.insert("a".to_string(), 3u32);
    assert_eq!(map.len(), 2);
    assert_eq!(map.key_at(0), "a");
    assert_eq!(map.key_at(1), "b");
    assert_eq!(map.value_at(0), &3);
    assert_eq!(map.get("a"), Some(&3));
    assert_eq!(map.get("b"), Some(&2));
    assert!(map.contains_key("b"));
    assert!(!map.is_empty());
}

#[test]
fn names_are_compared_character_by_character() {
    let mut map = NameMap::new();
    map.insert("DP-1".to_string(), 1u32);
    assert_eq!(map.get("DP-1"), Some(&1));
    assert_eq!(map.get("DP-"), None);
    assert_eq!(map.get("DP-10"), None);
    assert_eq!(map.get("dp-1"), None);
    assert_eq!(map.get(""), None);
    map.insert("é".to_string(), 2u32);
    assert_eq!(map.get("é"), Some(&2));
    assert_eq!(map.get("e"), None);
}

#[test]
fn remove_hands_back_the_value_and_keeps_the_order_of_the_rest() {
    let mut map = NameMap::new();
    map.insert("a".to_string(), 1u32);
    map.insert("b".to_string(), 2u32);
    map.insert("c".to_string(), 3u32);
    assert_eq!(map.remove("b"), Some(2));
    assert_eq!(map.remove("b"), None);
    assert_eq!(map.len(), 2);
    assert_eq!(map.key_at(0), "a");
    assert_eq!(map.key_at(1), "c");
    assert_eq!(map.get("c"), Some(&3));
}

#[test]
fn drain_empties_the_map_and_hands_back_the_values_in_order() {
    let mut map = NameMap::new();
    map.insert("x".to_string(), 10u32);
    map.insert("y".to_string(), 20u32);
    map.insert("z".to_string(), 30u32);
    assert_eq!(map.drain(), vec![10, 20, 30]);
    assert!(map.is_empty());
    assert_eq!(map.drain(), Vec::<u32>::new());
}

#[test]
fn clone_copies_names_and_values() {
    let mut map = NameMap::new();
    map.insert("a".to_string(), "1".to_string());
    map.insert("b".to_string(), "2".to_string());
    let copy = map.clone();
    map.insert("a".to_string(), "changed".to_string());
    assert_eq!(copy.len(), 2);
    assert_eq!(copy.key_at(0), "a");
    assert_eq!(copy.get("a"), Some(&"1".to_string()));
    assert_eq!(copy.get("b"), Some(&"2".to_string()));
}
