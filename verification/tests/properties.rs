use deviceservice::properties::PropertyMap;

fn text(s: &str) -> String {
    String::from(s)
}

#[test]
fn new_map_is_empty() {
    let map = PropertyMap::new();
    assert!(map.is_empty());
    assert_eq!(map.len(), 0);
    assert_eq!(map.get("a"), None);
    assert!(PropertyMap::default().is_empty());
}

#[test]
fn insert_then_get() {
    let mut map = PropertyMap::new();
    map.insert(text("username"), text("admin"));
    map.insert(text("password"), text("secret"));
    assert_eq!(map.len(), 2);
    assert!(!map.is_empty());
    assert_eq!(map.get("username"), Some(&text("admin")));
    assert_eq!(map.get("password"), Some(&text("secret")));
    assert_eq!(map.get("user"), None);
    assert_eq!(map.get("USERNAME"), None);
}

#[test]
fn insert_replaces_the_value_of_a_key() {
    let mut map = PropertyMap::new();
    map.insert(text("a"), text("1"));
    map.insert(text("b"), text("2"));
    map.insert(text("a"), text("3"));
    assert_eq!(map.len(), 2);
    assert_eq!(map.get("a"), Some(&text("3")));
    assert_eq!(map.get("b"), Some(&text("2")));
}

#[test]
fn into_pairs_gives_each_key_once() {
    let mut map = PropertyMap::new();
    map.insert(text("a"), text("1"));
    map.insert(text("b"), text("2"));
    map.insert(text("a"), text("3"));
    map.insert(text(""), text(""));
    let mut pairs = map.into_pairs();
    pairs.sort();
    assert_eq!(pairs, vec![(text(""), text("")), (text("a"), text("3")), (text("b"), text("2"))]);
}

#[test]
fn clone_keeps_the_entries() {
    let mut map = PropertyMap::new();
    map.insert(text("a"), text("1"));
    let mut copy = map.clone();
    copy.insert(text("b"), text("2"));
    assert_eq!(map.len(), 1);
    assert_eq!(copy.len(), 2);
    assert_eq!(copy.get("a"), Some(&text("1")));
    assert_eq!(map.get("b"), None);
}
