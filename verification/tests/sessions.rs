use frun::sessions::SessionTable;

fn sorted(mut names: Vec<String>) -> Vec<String> {
    names.sort();
    names
}

#[test]
fn table_starts_empty() {
    let table: SessionTable<u32> = SessionTable::new();
    assert_eq!(table.get(&"a".to_string()), None);
    assert!(table.names().is_empty());
}

#[test]
fn table_finds_sessions_by_name() {
    let mut table = SessionTable::new();
    table.insert("a".to_string(), 1);
    table.insert("b".to_string(), 2);
    table.insert(String::new(), 3);
    assert_eq!(table.get(&"a".to_string()), Some(&1));
    assert_eq!(table.get(&"b".to_string()), Some(&2));
    assert_eq!(table.get(&String::new()), Some(&3));
    assert_eq!(table.get(&"A".to_string()), None);
    assert_eq!(sorted(table.names()), vec!["", "a", "b"]);
}

#[test]
fn table_holds_one_session_per_name() {
    let mut table = SessionTable::new();
    table.insert("a".to_string(), 1);
    table.insert("b".to_string(), 2);
    table.insert("a".to_string(), 3);
    assert_eq!(table.get(&"a".to_string()), Some(&3));
    assert_eq!(table.get(&"b".to_string()), Some(&2));
    assert_eq!(sorted(table.names()), vec!["a", "b"]);
}

#[test]
fn table_removes_only_the_name() {
    let mut table = SessionTable::new();
    for (number, name) in ["a", "b", "c"].iter().enumerate() {
        table.insert(name.to_string(), number);
    }
    table.remove(&"b".to_string());
    table.remove(&"x".to_string());
    assert_eq!(table.get(&"a".to_string()), Some(&0));
    assert_eq!(table.get(&"b".to_string()), None);
    assert_eq!(table.get(&"c".to_string()), Some(&2));
    assert_eq!(sorted(table.names()), vec!["a", "c"]);
}
