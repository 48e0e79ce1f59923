use sitegen::front_matter::FrontMatter;

fn entry(key: &str, value: &str) -> (String, String) {
    (key.to_string(), value.to_string())
}

#[test]
fn new_mapping_binds_nothing() {
    let bindings = FrontMatter::new();
    assert_eq!(bindings.get("title"), None);
    assert!(bindings.entries().is_empty());
}

#[test]
fn insert_binds_a_key() {
    let bindings = FrontMatter::new().insert("title".to_string(), "Hi".to_string());
    assert_eq!(bindings.get("title"), Some(&"Hi".to_string()));
    assert_eq!(bindings.get("Title"), None);
    assert_eq!(bindings.get(""), None);
}

#[test]
fn insert_overwrites_the_earlier_value() {
    let bindings = FrontMatter::new()
        .insert("a".to_string(), "1".to_string())
        .insert("b".to_string(), "2".to_string())
        .insert("a".to_string(), "3".to_string());
    assert_eq!(bindings.get("a"), Some(&"3".to_string()));
    assert_eq!(bindings.get("b"), Some(&"2".to_string()));
    assert_eq!(bindings.entries().len(), 2);
}

#[test]
fn from_entries_lets_the_later_entry_win() {
    let entries = vec![entry("k", "old"), entry("other", "x"), entry("k", "new")];
    let bindings = FrontMatter::from_entries(&entries);
    assert_eq!(bindings.get("k"), Some(&"new".to_string()));
    assert_eq!(bindings.get("other"), Some(&"x".to_string()));
    assert_eq!(bindings.entries().len(), 2);
}

#[test]
fn entries_hold_each_key_once() {
    let bindings = FrontMatter::from_entries(&vec![entry("a", "1"), entry("b", "2"), entry("a", "3")]);
    let mut entries = bindings.entries().clone();
    entries.sort();
    assert_eq!(entries, vec![entry("a", "3"), entry("b", "2")]);
}
