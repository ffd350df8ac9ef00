use std::collections::hash_map::DefaultHasher;
use std::hash::{Hash, Hasher};

use reservoir::{Handle, Reservoir};

fn hash_of(h: &Handle<String>) -> u64 {
    let mut state = DefaultHasher::new();
    h.hash(&mut state);
    state.finish()
}

#[test]
fn sanity_check() {
    let mut r: Reservoir<String> = Reservoir::default();
    let h = r.insert(String::from("hello"));
    assert_eq!("hello", r.get(h));

    r.get_mut(h).push('!');
    assert_eq!("hello!", r.get(h));
}

#[test]
fn insert_then_get_returns_value() {
    let mut r: Reservoir<u32> = Reservoir::new(0);
    let h = r.insert(41);
    assert_eq!(*r.get(h), 41);
    let g = r.insert(7);
    assert_eq!(*r.get(g), 7);
}

#[test]
fn later_inserts_keep_earlier_values() {
    let mut r: Reservoir<u32> = Reservoir::new(1);
    let first = r.insert(10);
    let second = r.insert(20);
    for i in 0..1000u32 {
        r.insert(i);
    }
    assert_eq!(*r.get(first), 10);
    assert_eq!(*r.get(second), 20);
}

#[test]
fn mutation_through_get_mut_is_seen() {
    let mut r: Reservoir<u32> = Reservoir::new(Reservoir::<u32>::SMALL_CAPACITY);
    let a = r.insert(1);
    let b = r.insert(2);
    *r.get_mut(a) = 100;
    assert_eq!(*r.get(a), 100);
    assert_eq!(*r.get(b), 2);
}

#[test]
fn handles_follow_insertion_order() {
    let mut r: Reservoir<String> = Reservoir::new(0);
    let ha = r.insert(String::from("a"));
    let hb = r.insert(String::from("b"));
    let hc = r.insert(String::from("c"));
    assert!(ha < hb);
    assert!(hb < hc);
    assert!(ha < hc);
    assert_eq!(r.get(ha), "a");
    assert_eq!(r.get(hb), "b");
    assert_eq!(r.get(hc), "c");
}

#[test]
fn handle_equality_and_hash_follow_index() {
    let mut r: Reservoir<String> = Reservoir::default();
    let ha = r.insert(String::from("x"));
    let hb = r.insert(String::from("x"));
    let copy = ha;
    assert_eq!(ha, copy);
    assert_eq!(ha, ha.clone());
    assert_ne!(ha, hb);
    assert_eq!(hash_of(&ha), hash_of(&copy));
    assert_eq!(ha.cmp(&hb), std::cmp::Ordering::Less);
    assert_eq!(hb.partial_cmp(&ha), Some(std::cmp::Ordering::Greater));
    assert_eq!(ha.partial_cmp(&copy), Some(std::cmp::Ordering::Equal));
}

#[test]
fn handles_of_separate_stores_compare_by_index() {
    let mut r: Reservoir<u8> = Reservoir::new(Reservoir::<u8>::LARGE_CAPACITY);
    let mut s: Reservoir<u8> = Reservoir::new(0);
    let hr = r.insert(1);
    let hs = s.insert(2);
    assert_eq!(hr, hs);
    assert_eq!(*r.get(hr), 1);
    assert_eq!(*s.get(hs), 2);
}

#[test]
fn default_behaves_as_medium_capacity() {
    assert_eq!(Reservoir::<u8>::SMALL_CAPACITY, 64);
    assert_eq!(Reservoir::<u8>::MEDIUM_CAPACITY, 256);
    assert_eq!(Reservoir::<u8>::LARGE_CAPACITY, 1024);
    let mut d: Reservoir<u8> = Reservoir::default();
    let mut n: Reservoir<u8> = Reservoir::new(256);
    for i in 0..300u32 {
        let hd = d.insert((i % 251) as u8);
        let hn = n.insert((i % 251) as u8);
        assert_eq!(hd, hn);
        assert_eq!(d.get(hd), n.get(hn));
    }
}

#[test]
fn clone_holds_the_same_values_apart() {
    let mut r: Reservoir<String> = Reservoir::new(2);
    let h = r.insert(String::from("one"));
    let mut c = r.clone();
    c.get_mut(h).push_str("two");
    assert_eq!(r.get(h), "one");
    assert_eq!(c.get(h), "onetwo");
}
