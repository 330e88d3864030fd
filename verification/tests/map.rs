use dbus_service::DBusMap;

fn table(names: &[&str]) -> DBusMap<usize> {
    let mut map = DBusMap::new();
    for (i, name) in names.iter().enumerate() {
        map.insert(name.to_string(), i);
    }
    map
}

#[test]
fn empty_table_holds_nothing() {
    let map: DBusMap<usize> = DBusMap::new();
    assert_eq!(map.len(), 0);
    assert_eq!(map.position(&"a".to_string()), None);
    assert_eq!(map.find(&"a".to_string()), None);
    assert!(map.has_unique_names());
}

#[test]
fn items_are_found_under_their_names() {
    let map = table(&["a", "b", "c"]);
    assert_eq!(map.len(), 3);
    assert_eq!(map.position(&"a".to_string()), Some(0));
    assert_eq!(map.position(&"c".to_string()), Some(2));
    assert_eq!(map.find(&"b".to_string()), Some(&1));
    assert_eq!(map.find(&"d".to_string()), None);
    assert_eq!(map.find(&"".to_string()), None);
    assert_eq!(map.name_at(1), "b");
    assert_eq!(map.item_at(2), &2);
    assert!(map.has_unique_names());
}

#[test]
fn first_item_under_a_name_is_found() {
    let map = table(&["a", "b", "a", "b"]);
    assert_eq!(map.len(), 4);
    assert_eq!(map.position(&"a".to_string()), Some(0));
    assert_eq!(map.find(&"b".to_string()), Some(&1));
    assert!(!map.has_unique_names());
}

#[test]
fn repeated_names_are_noticed_wherever_they_stand() {
    assert!(!table(&["a", "a"]).has_unique_names());
    assert!(!table(&["a", "b", "c", "a"]).has_unique_names());
    assert!(!table(&["a", "b", "c", "c"]).has_unique_names());
    assert!(!table(&["a", "b", "b", "c"]).has_unique_names());
    assert!(table(&["a", "A", "a "]).has_unique_names());
    assert!(table(&["a"]).has_unique_names());
}
