use shellce::engine::variables::VariableManager;

fn pair(name: &str, value: &str) -> (String, String) {
    (name.to_string(), value.to_string())
}

#[test]
fn set_then_get_then_remove() {
    let mut store = VariableManager::new();
    store.set("x".to_string(), "1".to_string());
    assert_eq!(store.get("x"), Some("1".to_string()));
    assert_eq!(store.remove("x"), Some("1".to_string()));
    assert_eq!(store.get("x"), None);
}

#[test]
fn new_store_is_empty() {
    let store = VariableManager::new();
    assert_eq!(store.get("x"), None);
    assert!(store.get_all().is_empty());
    assert!(store.keys().is_empty());
    assert!(VariableManager::default().get_all().is_empty());
}

#[test]
fn set_overwrites_and_keeps_the_place() {
    let mut store = VariableManager::new();
    store.set("a".to_string(), "1".to_string());
    store.set("b".to_string(), "2".to_string());
    store.set("a".to_string(), "3".to_string());
    assert_eq!(store.get("a"), Some("3".to_string()));
    assert_eq!(store.get_all(), vec![pair("a", "3"), pair("b", "2")]);
}

#[test]
fn remove_of_unbound_name_changes_nothing() {
    let mut store = VariableManager::new();
    store.set("a".to_string(), "1".to_string());
    assert_eq!(store.remove("b"), None);
    assert_eq!(store.get_all(), vec![pair("a", "1")]);
}

#[test]
fn remove_keeps_the_other_bindings_in_order() {
    let mut store = VariableManager::new();
    for (name, value) in [("a", "1"), ("b", "2"), ("c", "3")] {
        store.set(name.to_string(), value.to_string());
    }
    assert_eq!(store.remove("b"), Some("2".to_string()));
    assert_eq!(store.get_all(), vec![pair("a", "1"), pair("c", "3")]);
    assert_eq!(store.keys(), vec!["a".to_string(), "c".to_string()]);
}

#[test]
fn set_all_replaces_everything() {
    let mut store = VariableManager::new();
    store.set("old".to_string(), "1".to_string());
    store.set_all(vec![pair("x", "1"), pair("y", "2")]);
    assert_eq!(store.get("old"), None);
    assert_eq!(store.get("x"), Some("1".to_string()));
    assert_eq!(store.get("y"), Some("2".to_string()));
    assert_eq!(store.keys(), vec!["x".to_string(), "y".to_string()]);
}

#[test]
fn set_all_lets_the_later_pair_win() {
    let mut store = VariableManager::new();
    store.set_all(vec![pair("x", "1"), pair("y", "2"), pair("x", "3")]);
    assert_eq!(store.get_all(), vec![pair("x", "3"), pair("y", "2")]);
}

#[test]
fn snapshot_then_replace_gives_the_same_store() {
    let mut store = VariableManager::new();
    for (name, value) in [("a", "1"), ("b", ""), ("", "c")] {
        store.set(name.to_string(), value.to_string());
    }
    let snapshot = store.get_all();
    let mut other = VariableManager::new();
    other.set("z".to_string(), "gone".to_string());
    other.set_all(snapshot.clone());
    assert_eq!(other.get_all(), snapshot);
    assert_eq!(store.clone().get_all(), snapshot);
}

#[test]
fn names_are_compared_exactly() {
    let mut store = VariableManager::new();
    store.set("x".to_string(), "1".to_string());
    assert_eq!(store.get("X"), None);
    assert_eq!(store.get("x "), None);
    assert_eq!(store.get(""), None);
}

#[test]
fn store_from_a_snapshot() {
    let store = VariableManager::from_snapshot(&vec![pair("b", "1"), pair("a", "2"), pair("b", "3")]);
    assert_eq!(store.get_all(), vec![pair("b", "3"), pair("a", "2")]);
    assert!(VariableManager::from_snapshot(&Vec::new()).keys().is_empty());
}
