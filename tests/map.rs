use livy::map::StringMap;

#[test]
fn insert_replaces_in_place() {
    let mut m = StringMap::new();
    assert_eq!(0, m.len());
    m.insert("a".to_string(), 1);
    m.insert("b".to_string(), 2);
    m.insert("a".to_string(), 3);
    assert_eq!(2, m.len());
    assert_eq!(Some(&3), m.get("a"));
    assert_eq!(Some(&2), m.get("b"));
    assert_eq!(None, m.get("c"));
    assert_eq!(&vec![("a".to_string(), 3), ("b".to_string(), 2)], m.entries());
}
