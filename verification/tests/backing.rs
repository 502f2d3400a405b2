use cache_loader_async::backing::{CacheBacking, HashMapBacking};

fn filled() -> HashMapBacking<String, u32> {
    let mut backing = HashMapBacking::new();
    backing.set("one".to_owned(), 1);
    backing.set("two".to_owned(), 2);
    backing.set("three".to_owned(), 3);
    backing
}

#[test]
fn backing_starts_empty() {
    let mut backing: HashMapBacking<String, u32> = HashMapBacking::new();
    assert_eq!(backing.get(&"one".to_owned()), None);
    assert!(!backing.contains_key(&"one".to_owned()));
}

#[test]
fn backing_set_hands_out_the_previous_value() {
    let mut backing = filled();
    assert_eq!(backing.set("one".to_owned(), 11), Some(1));
    assert_eq!(backing.set("four".to_owned(), 4), None);
    assert_eq!(backing.get(&"one".to_owned()), Some(&11));
    assert_eq!(backing.get(&"four".to_owned()), Some(&4));
}

#[test]
fn backing_remove_hands_out_the_value() {
    let mut backing = filled();
    assert_eq!(backing.remove(&"two".to_owned()), Some(2));
    assert_eq!(backing.remove(&"two".to_owned()), None);
    assert!(!backing.contains_key(&"two".to_owned()));
    assert!(backing.contains_key(&"three".to_owned()));
}

#[test]
fn backing_remove_if_removes_what_is_accepted() {
    let mut backing = filled();
    backing.remove_if(|(key, value): (&String, &u32)| *value == 3 || key == "one");
    assert_eq!(backing.get(&"one".to_owned()), None);
    assert_eq!(backing.get(&"two".to_owned()), Some(&2));
    assert_eq!(backing.get(&"three".to_owned()), None);
}

#[test]
fn backing_clear_removes_everything() {
    let mut backing = filled();
    backing.clear();
    assert!(!backing.contains_key(&"one".to_owned()));
    assert!(!backing.contains_key(&"two".to_owned()));
    assert!(!backing.contains_key(&"three".to_owned()));
}
