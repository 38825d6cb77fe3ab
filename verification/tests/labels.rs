use shazamq_operator::labels::{common_labels, pod_labels, selector_labels, LabelMap};

fn value_of(map: &LabelMap, key: &str) -> Option<String> {
    map.get(key).cloned()
}

#[test]
fn empty_map_holds_nothing() {
    let map = LabelMap::new();
    assert!(map.get("app").is_none());
    assert_eq!(map.entries().len(), 0);
}

#[test]
fn insert_sets_and_replaces() {
    let mut map = LabelMap::new();
    map.insert("a".to_string(), "1".to_string());
    map.insert("b".to_string(), "2".to_string());
    assert_eq!(value_of(&map, "a"), Some("1".to_string()));
    assert_eq!(value_of(&map, "b"), Some("2".to_string()));
    assert_eq!(value_of(&map, "c"), None);
    map.insert("a".to_string(), "3".to_string());
    assert_eq!(value_of(&map, "a"), Some("3".to_string()));
    assert_eq!(value_of(&map, "b"), Some("2".to_string()));
    assert_eq!(map.entries().len(), 2);
}

#[test]
fn extend_prefers_the_other_map() {
    let mut left = LabelMap::new();
    left.insert("a".to_string(), "left".to_string());
    left.insert("b".to_string(), "left".to_string());
    let mut right = LabelMap::new();
    right.insert("b".to_string(), "right".to_string());
    right.insert("c".to_string(), "right".to_string());
    left.extend(&right);
    assert_eq!(value_of(&left, "a"), Some("left".to_string()));
    assert_eq!(value_of(&left, "b"), Some("right".to_string()));
    assert_eq!(value_of(&left, "c"), Some("right".to_string()));
    assert_eq!(left.entries().len(), 3);
}

#[test]
fn duplicate_and_clone_keep_every_entry() {
    let mut map = LabelMap::new();
    map.insert("k".to_string(), "v".to_string());
    map.insert("k2".to_string(), "v2".to_string());
    let copy = map.duplicate();
    let clone = map.clone();
    map.insert("k".to_string(), "changed".to_string());
    assert_eq!(value_of(&copy, "k"), Some("v".to_string()));
    assert_eq!(value_of(&copy, "k2"), Some("v2".to_string()));
    assert_eq!(value_of(&clone, "k"), Some("v".to_string()));
    assert_eq!(clone.entries().len(), 2);
}

#[test]
fn selector_labels_are_the_two_of_the_cluster() {
    let labels = selector_labels("orders");
    assert_eq!(value_of(&labels, "app"), Some("shazamq".to_string()));
    assert_eq!(value_of(&labels, "shazamq.io/cluster"), Some("orders".to_string()));
    assert_eq!(labels.entries().len(), 2);
}

#[test]
fn common_labels_add_the_manager() {
    let labels = common_labels("orders");
    assert_eq!(value_of(&labels, "app"), Some("shazamq".to_string()));
    assert_eq!(value_of(&labels, "shazamq.io/cluster"), Some("orders".to_string()));
    assert_eq!(value_of(&labels, "managed-by"), Some("shazamq-operator".to_string()));
    assert_eq!(labels.entries().len(), 3);
}

#[test]
fn selector_is_within_common_labels() {
    let selector = selector_labels("n");
    let common = common_labels("n");
    for entry in selector.entries() {
        assert_eq!(common.get(&entry.key), Some(&entry.value));
    }
    assert!(selector.entries().len() < common.entries().len());
}

#[test]
fn user_labels_cannot_override_the_selector() {
    let mut user = LabelMap::new();
    user.insert("app".to_string(), "intruder".to_string());
    user.insert("shazamq.io/cluster".to_string(), "other".to_string());
    user.insert("team".to_string(), "data".to_string());
    let labels = pod_labels(&Some(user), "orders");
    assert_eq!(value_of(&labels, "app"), Some("shazamq".to_string()));
    assert_eq!(value_of(&labels, "shazamq.io/cluster"), Some("orders".to_string()));
    assert_eq!(value_of(&labels, "team"), Some("data".to_string()));
    assert_eq!(labels.entries().len(), 3);
}

#[test]
fn without_user_labels_a_replica_has_the_selector_labels() {
    let labels = pod_labels(&None, "orders");
    assert_eq!(value_of(&labels, "app"), Some("shazamq".to_string()));
    assert_eq!(value_of(&labels, "shazamq.io/cluster"), Some("orders".to_string()));
    assert_eq!(labels.entries().len(), 2);
}
