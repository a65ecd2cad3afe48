use pkgid::features::FeatureMap;

fn list(names: &[&str]) -> Vec<String> {
    names.iter().map(|n| n.to_string()).collect()
}

#[test]
fn new_feature_map_is_empty() {
    let map = FeatureMap::new();
    assert_eq!(map.len(), 0);
    assert!(!map.contains_key("a"));
    assert_eq!(map.get("a"), None);
    assert_eq!(map.position("a"), None);
}

#[test]
fn insert_appends_new_names_in_order() {
    let mut map = FeatureMap::new();
    assert_eq!(map.insert("b".to_string(), list(&["x"])), None);
    assert_eq!(map.insert("a".to_string(), list(&["y", "z"])), None);
    assert_eq!(map.len(), 2);
    assert_eq!(map.name_at(0), "b");
    assert_eq!(map.name_at(1), "a");
    assert_eq!(map.targets_at(0), &list(&["x"]));
    assert_eq!(map.targets_at(1), &list(&["y", "z"]));
    assert_eq!(map.position("a"), Some(1));
    assert!(map.contains_key("b"));
    assert_eq!(map.get("a"), Some(&list(&["y", "z"])));
}

#[test]
fn insert_replaces_in_place() {
    let mut map = FeatureMap::new();
    map.insert("a".to_string(), list(&["1"]));
    map.insert("b".to_string(), list(&["2"]));
    map.insert("c".to_string(), list(&["3"]));
    assert_eq!(map.insert("a".to_string(), list(&["4", "5"])), Some(list(&["1"])));
    assert_eq!(map.len(), 3);
    assert_eq!(map.name_at(0), "a");
    assert_eq!(map.name_at(1), "b");
    assert_eq!(map.name_at(2), "c");
    assert_eq!(map.get("a"), Some(&list(&["4", "5"])));
    assert_eq!(map.insert("c".to_string(), Vec::new()), Some(list(&["3"])));
    assert_eq!(map.name_at(2), "c");
    assert_eq!(map.get("c"), Some(&Vec::new()));
    assert_eq!(map.get("b"), Some(&list(&["2"])));
}

#[test]
fn feature_maps_compare_by_entries() {
    let mut one = FeatureMap::new();
    one.insert("a".to_string(), list(&["x"]));
    let mut two = FeatureMap::new();
    assert_ne!(one, two);
    two.insert("a".to_string(), list(&["x"]));
    assert_eq!(one, two);
    assert_eq!(one.clone(), one);
    two.insert("a".to_string(), list(&["y"]));
    assert_ne!(one, two);
}
