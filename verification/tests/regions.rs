use overlay_core::RegionMap;

fn named(pairs: &[(&str, u32)]) -> Vec<(String, u32)> {
    pairs.iter().map(|(k, v)| (k.to_string(), *v)).collect()
}

#[test]
fn empty_table() {
    let m: RegionMap<u32> = RegionMap::new();
    assert!(!m.any(|_| true));
    assert_eq!(m.get(&"a".to_string()), None);
}

#[test]
fn replace_and_get() {
    let mut m = RegionMap::new();
    m.replace(named(&[("island", 1), ("panel", 2)]));
    assert_eq!(m.get(&"island".to_string()), Some(&1));
    assert_eq!(m.get(&"panel".to_string()), Some(&2));
    assert_eq!(m.get(&"search".to_string()), None);
}

#[test]
fn last_occurrence_wins() {
    let mut m = RegionMap::new();
    m.replace(named(&[("a", 1), ("b", 2), ("a", 3), ("b", 4), ("a", 5)]));
    assert_eq!(m.get(&"a".to_string()), Some(&5));
    assert_eq!(m.get(&"b".to_string()), Some(&4));
    let mut seen = std::cell::RefCell::new(Vec::new());
    assert!(!m.any(|v| {
        seen.borrow_mut().push(*v);
        false
    }));
    let mut values = seen.get_mut().clone();
    values.sort();
    assert_eq!(values, vec![4, 5]);
}

#[test]
fn replace_is_wholesale() {
    let mut m = RegionMap::new();
    m.replace(named(&[("a", 1), ("b", 2)]));
    m.replace(named(&[("c", 3)]));
    assert_eq!(m.get(&"a".to_string()), None);
    assert_eq!(m.get(&"b".to_string()), None);
    assert_eq!(m.get(&"c".to_string()), Some(&3));
    m.replace(Vec::new());
    assert!(!m.any(|_| true));
}

#[test]
fn any_finds_a_match() {
    let mut m = RegionMap::new();
    m.replace(named(&[("a", 1), ("b", 20), ("c", 3)]));
    assert!(m.any(|v| *v > 10));
    assert!(!m.any(|v| *v > 100));
}
