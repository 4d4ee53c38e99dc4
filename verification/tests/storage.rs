use shellce::engine::variables::VariableManager;
use shellce::storage::MemoryStorage;

fn pair(name: &str, value: &str) -> (String, String) {
    (name.to_string(), value.to_string())
}

#[test]
fn encode_writes_an_indented_object_in_key_order() {
    let snapshot = vec![pair("b", "2"), pair("a", "1")];
    assert_eq!(MemoryStorage::encode(&snapshot).unwrap(), "{\n  \"a\": \"1\",\n  \"b\": \"2\"\n}");
    assert_eq!(MemoryStorage::encode(&Vec::new()).unwrap(), "{}");
}

#[test]
fn encode_lets_the_later_pair_win() {
    let snapshot = vec![pair("a", "1"), pair("a", "2")];
    assert_eq!(MemoryStorage::encode(&snapshot).unwrap(), "{\n  \"a\": \"2\"\n}");
}

#[test]
fn encode_agrees_with_serde_json_on_a_map() {
    let snapshot = vec![pair("k 1", "v \"1\""), pair("\u{e9}", "line\nbreak"), pair("", "\\")];
    let map: std::collections::HashMap<String, String> = snapshot.iter().cloned().collect();
    let ours: serde_json::Value =
        serde_json::from_str(&MemoryStorage::encode(&snapshot).unwrap()).unwrap();
    let theirs: serde_json::Value =
        serde_json::from_str(&serde_json::to_string_pretty(&map).unwrap()).unwrap();
    assert_eq!(ours, theirs);
}

#[test]
fn decode_reads_an_object_of_strings() {
    let read = MemoryStorage::decode("{\"b\": \"2\", \"a\": \"1\"}").unwrap();
    assert_eq!(read, vec![pair("a", "1"), pair("b", "2")]);
    assert_eq!(MemoryStorage::decode(" {} ").unwrap(), Vec::new());
}

#[test]
fn decode_rejects_other_texts() {
    for text in ["", "[]", "{\"a\": 1}", "{\"a\": \"1\"", "null", "{\"a\": {\"b\": \"c\"}}"] {
        let message = MemoryStorage::decode(text).unwrap_err();
        let expected = serde_json::from_str::<std::collections::BTreeMap<String, String>>(text)
            .unwrap_err()
            .to_string();
        assert_eq!(message, expected);
    }
}

#[test]
fn encode_then_decode_gives_the_mapping_back() {
    let mut store = VariableManager::new();
    for (name, value) in [
        ("x", "5"),
        ("name with space", "value with \"quotes\""),
        ("unicode \u{2603}", "\u{1f600} \u{0}"),
        ("", ""),
        ("back\\slash", "tab\tnew\nline"),
    ] {
        store.set(name.to_string(), value.to_string());
    }
    let snapshot = store.get_all();
    let text = MemoryStorage::encode(&snapshot).unwrap();
    let read = MemoryStorage::decode(&text).unwrap();
    let mut restored = VariableManager::new();
    restored.set_all(read);
    let mut expected = snapshot.clone();
    expected.sort();
    let mut found = restored.get_all();
    found.sort();
    assert_eq!(found, expected);
    for (name, value) in snapshot {
        assert_eq!(restored.get(&name), Some(value));
    }
}
