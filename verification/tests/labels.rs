use hugill::labels::{Label, Labels};

fn labels_of(pairs: &[(&str, &str)]) -> Labels {
    let mut labels = Labels::new();
    for (key, value) in pairs {
        labels.insert(key.to_string(), value.to_string());
    }
    labels
}

#[test]
fn new_labels_are_empty() {
    let labels = Labels::new();
    assert_eq!(labels.len(), 0);
    assert!(labels.is_empty());
    assert_eq!(labels.get("app"), None);
    assert!(!labels.contains_key("app"));
}

#[test]
fn insert_then_get() {
    let labels = labels_of(&[("app", "x"), ("tier", "web")]);
    assert_eq!(labels.len(), 2);
    assert!(!labels.is_empty());
    assert_eq!(labels.get("app"), Some(&"x".to_string()));
    assert_eq!(labels.get("tier"), Some(&"web".to_string()));
    assert_eq!(labels.get("ap"), None);
    assert!(labels.contains_key("tier"));
}

#[test]
fn insert_replaces_the_value_of_a_key() {
    let mut labels = labels_of(&[("app", "x"), ("tier", "web")]);
    labels.insert("app".to_string(), "y".to_string());
    assert_eq!(labels.len(), 2);
    assert_eq!(labels.get("app"), Some(&"y".to_string()));
    assert_eq!(labels.get("tier"), Some(&"web".to_string()));
}

#[test]
fn subset_ignores_extra_labels() {
    let small = labels_of(&[("app", "x")]);
    let large = labels_of(&[("tier", "web"), ("app", "x")]);
    assert!(small.is_subset_of(&large));
    assert!(!large.is_subset_of(&small));
    assert!(small.is_subset_of(&small));
}

#[test]
fn subset_needs_equal_values() {
    let wanted = labels_of(&[("app", "x")]);
    let other = labels_of(&[("app", "y")]);
    assert!(!wanted.is_subset_of(&other));
}

#[test]
fn empty_labels_are_a_subset_of_any() {
    let empty = Labels::new();
    assert!(empty.is_subset_of(&Labels::new()));
    assert!(empty.is_subset_of(&labels_of(&[("app", "x")])));
}

#[test]
fn hash_keys_are_dropped() {
    let labels = labels_of(&[
        ("app", "x"),
        ("pod-template-hash", "abc"),
        ("controller-revision-hash", "def"),
        ("-hash", "bare"),
        ("hash", "kept"),
        ("x-hash-y", "kept too"),
        ("x-Hash", "case matters"),
    ]);
    let kept = labels.without_hash_keys();
    assert_eq!(kept.len(), 4);
    assert_eq!(kept.get("app"), Some(&"x".to_string()));
    assert_eq!(kept.get("hash"), Some(&"kept".to_string()));
    assert_eq!(kept.get("x-hash-y"), Some(&"kept too".to_string()));
    assert_eq!(kept.get("x-Hash"), Some(&"case matters".to_string()));
    assert_eq!(kept.get("pod-template-hash"), None);
    assert_eq!(kept.get("controller-revision-hash"), None);
    assert_eq!(kept.get("-hash"), None);
    assert_eq!(labels.len(), 7);
}

#[test]
fn hash_key_with_characters_beyond_ascii() {
    let labels = labels_of(&[("caf\u{e9}-hash", "a"), ("caf\u{e9}", "b")]);
    let kept = labels.without_hash_keys();
    assert_eq!(kept.len(), 1);
    assert_eq!(kept.get("caf\u{e9}"), Some(&"b".to_string()));
}

#[test]
fn from_entries_keeps_the_later_of_two_equal_keys() {
    let labels = Labels::from_entries(vec![
        Label { key: "app".to_string(), value: "x".to_string() },
        Label { key: "tier".to_string(), value: "web".to_string() },
        Label { key: "app".to_string(), value: "y".to_string() },
    ]);
    assert_eq!(labels.len(), 2);
    assert_eq!(labels.get("app"), Some(&"y".to_string()));
    assert_eq!(labels.get("tier"), Some(&"web".to_string()));
}

#[test]
fn to_entries_lists_each_key_once() {
    let mut labels = labels_of(&[("app", "x"), ("tier", "web")]);
    labels.insert("app".to_string(), "z".to_string());
    let mut pairs: Vec<(String, String)> =
        labels.to_entries().into_iter().map(|entry| (entry.key, entry.value)).collect();
    pairs.sort();
    assert_eq!(
        pairs,
        vec![("app".to_string(), "z".to_string()), ("tier".to_string(), "web".to_string())]
    );
}

#[test]
fn clone_holds_the_same_labels() {
    let labels = labels_of(&[("app", "x"), ("tier", "web")]);
    let copy = labels.clone();
    assert_eq!(copy.len(), 2);
    assert!(copy.is_subset_of(&labels));
    assert!(labels.is_subset_of(&copy));
}
