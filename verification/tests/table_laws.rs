use kernel::table::Table;

#[test]
fn get_after_insert() {
    let mut t: Table<String> = Table::new();
    assert_eq!(t.insert("k".to_string(), "v".to_string()), None);
    assert_eq!(t.get("k"), Some(&"v".to_string()));
    assert!(t.contains_key("k"));
    assert!(!t.contains_key("x"));
    assert_eq!(t.get("x"), None);
}

#[test]
fn insert_replaces_in_place() {
    let mut t: Table<u32> = Table::new();
    t.insert("a".to_string(), 1);
    t.insert("b".to_string(), 2);
    assert_eq!(t.insert("a".to_string(), 3), Some(1));
    assert_eq!(t.len(), 2);
    assert_eq!(t.key_at(0), "a");
    assert_eq!(*t.value_at(0), 3);
    assert_eq!(t.key_at(1), "b");
}

#[test]
fn remove_returns_value_and_keeps_order() {
    let mut t: Table<u32> = Table::new();
    t.insert("a".to_string(), 1);
    t.insert("b".to_string(), 2);
    t.insert("c".to_string(), 3);
    assert_eq!(t.remove("b"), Some(2));
    assert_eq!(t.remove("b"), None);
    assert_eq!(t.get("b"), None);
    assert_eq!(t.len(), 2);
    assert_eq!(t.key_at(0), "a");
    assert_eq!(t.key_at(1), "c");
}

#[test]
fn insert_leaves_other_keys() {
    let mut t: Table<u32> = Table::new();
    t.insert("a".to_string(), 1);
    t.insert("b".to_string(), 2);
    assert_eq!(t.get("a"), Some(&1));
}
