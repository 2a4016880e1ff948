use gpu_plugin::strmap::StringMap;

#[test]
fn insert_then_get() {
    let mut m = StringMap::new();
    assert!(m.is_empty());
    m.insert("a".to_string(), "1".to_string());
    m.insert("b".to_string(), "2".to_string());
    m.insert("a".to_string(), "3".to_string());
    assert!(!m.is_empty());
    assert_eq!(m.get("a").unwrap(), "3");
    assert_eq!(m.get("b").unwrap(), "2");
    assert_eq!(m.get("c"), None);
    assert_eq!(m.entries().len(), 2);
}

#[test]
fn later_entries_win() {
    let m = StringMap::from_entries(vec![
        ("k".to_string(), "old".to_string()),
        ("k".to_string(), "new".to_string()),
    ]);
    assert_eq!(m.get("k").unwrap(), "new");
    let c = m.copy();
    assert_eq!(c.get("k").unwrap(), "new");
    assert!(StringMap::default().is_empty());
}
