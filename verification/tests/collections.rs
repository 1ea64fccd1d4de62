use storefront::collections::{StringMap, StringSet};

fn s(text: &str) -> String {
    text.to_string()
}

#[test]
fn string_map_starts_empty() {
    let map: StringMap<u32> = StringMap::new();
    assert!(!map.contains_key(&s("a")));
    assert_eq!(map.get(&s("a")), None);
    assert!(map.entries().is_empty());
}

#[test]
fn string_map_insert_then_get() {
    let mut map: StringMap<u32> = StringMap::new();
    map.insert(s("alice.near"), 10);
    map.insert(s("bob.near"), 25);
    assert_eq!(map.get(&s("alice.near")), Some(&10));
    assert_eq!(map.get(&s("bob.near")), Some(&25));
    assert_eq!(map.get(&s("carol.near")), None);
    assert!(map.contains_key(&s("bob.near")));
    assert!(!map.contains_key(&s("bob")));
}

#[test]
fn string_map_insert_overwrites_in_place() {
    let mut map: StringMap<u32> = StringMap::new();
    map.insert(s("alice.near"), 10);
    map.insert(s("bob.near"), 25);
    map.insert(s("alice.near"), 40);
    assert_eq!(map.get(&s("alice.near")), Some(&40));
    assert_eq!(map.get(&s("bob.near")), Some(&25));
    assert_eq!(map.entries().len(), 2);
    assert_eq!(map.entries()[0], (s("alice.near"), 40));
    assert_eq!(map.entries()[1], (s("bob.near"), 25));
}

#[test]
fn string_map_keys_are_compared_by_characters() {
    let mut map: StringMap<u64> = StringMap::new();
    map.insert(s(""), 1);
    map.insert(s("a"), 2);
    map.insert(s("A"), 3);
    assert_eq!(map.get(&s("")), Some(&1));
    assert_eq!(map.get(&s("a")), Some(&2));
    assert_eq!(map.get(&s("A")), Some(&3));
}

#[test]
fn string_set_insert_reports_new_members() {
    let mut set = StringSet::new();
    assert!(!set.contains(&s("1:1")));
    assert!(set.insert(s("1:1")));
    assert!(!set.insert(s("1:1")));
    assert!(set.insert(s("1:2")));
    assert!(set.contains(&s("1:1")));
    assert!(set.contains(&s("1:2")));
    assert_eq!(set.items().len(), 2);
}

#[test]
fn string_set_remove_reports_membership() {
    let mut set = StringSet::new();
    set.insert(s("1:1"));
    set.insert(s("1:2"));
    set.insert(s("1:3"));
    assert!(set.remove(&s("1:2")));
    assert!(!set.contains(&s("1:2")));
    assert!(set.contains(&s("1:1")));
    assert!(set.contains(&s("1:3")));
    assert!(!set.remove(&s("1:2")));
    assert!(!set.remove(&s("9:9")));
    assert_eq!(set.items(), &vec![s("1:1"), s("1:3")]);
}

#[test]
fn string_set_remove_from_empty() {
    let mut set = StringSet::new();
    assert!(!set.remove(&s("x")));
    assert!(set.items().is_empty());
}
