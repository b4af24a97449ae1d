use core::borrow::Borrow;
use core::cmp::Ordering;
use mwmr::types::{Entry, EntryData, EntryDataRef, EntryRef, EntryValue, Key, KeyRef};
use mwmr::CheapClone;
use std::cell::Cell;
use std::rc::Rc;
use std::sync::Arc;

fn insert(key: u32, value: &'static str, version: u64) -> Entry<u32, &'static str> {
    Entry { version, data: EntryData::Insert { key, value } }
}

fn remove(key: u32, version: u64) -> Entry<u32, &'static str> {
    Entry { version, data: EntryData::Remove(key) }
}

#[test]
fn key_starts_at_version_zero() {
    let key = Key::new(7u32);
    assert_eq!(*key.key(), 7);
    assert_eq!(key.version(), 0);
}

#[test]
fn key_takes_a_version() {
    let mut key = Key::new("a");
    key.set_version(9);
    assert_eq!(key.version(), 9);
    let key = key.with_version(12);
    assert_eq!(key.clone().into_components(), ("a", 12));
    let borrowed: &&str = key.borrow();
    assert_eq!(*borrowed, "a");
}

#[test]
fn keys_are_ordered_by_key_then_newest_first() {
    let a1 = Key::new("a").with_version(1);
    let a2 = Key::new("a").with_version(2);
    let b0 = Key::new("b");
    assert_eq!(a2.cmp(&a1), Ordering::Less);
    assert_eq!(a1.cmp(&a2), Ordering::Greater);
    assert_eq!(a1.cmp(&a1.clone()), Ordering::Equal);
    assert_eq!(a1.cmp(&b0), Ordering::Less);
    assert_eq!(b0.cmp(&a2), Ordering::Greater);
    assert_eq!(a2.partial_cmp(&b0), Some(Ordering::Less));
    assert!(a2 < a1 && a1 < b0 && a2 < b0);
}

#[test]
fn keys_are_equal_with_their_versions() {
    let a1 = Key::new("a").with_version(1);
    assert!(a1 == Key::new("a").with_version(1));
    assert!(a1 != Key::new("a").with_version(2));
    assert!(a1 != Key::new("b").with_version(1));
}

#[test]
fn key_refs_behave_like_keys() {
    let (a, b) = (String::from("a"), String::from("b"));
    let a1 = KeyRef { key: &a, version: 1 };
    let a2 = KeyRef { key: &a, version: 2 };
    let b1 = KeyRef { key: &b, version: 1 };
    assert_eq!(a1.key(), "a");
    assert_eq!(a2.version(), 2);
    assert_eq!(a2.cmp(&a1), Ordering::Less);
    assert_eq!(a1.partial_cmp(&b1), Some(Ordering::Less));
    assert!(a1 == a1.clone() && a1 != a2 && a1 != b1);
    let borrowed: &String = b1.borrow();
    assert_eq!(borrowed, "b");
}

#[test]
fn entry_data_gives_key_and_value() {
    let there: EntryData<u32, &str> = EntryData::Insert { key: 3, value: "x" };
    let gone: EntryData<u32, &str> = EntryData::Remove(4);
    assert_eq!((*there.key(), there.value()), (3, Some(&"x")));
    assert_eq!((*gone.key(), gone.value()), (4, None));
}

#[test]
fn entry_data_is_ordered_by_key_alone() {
    let a: EntryData<u32, &str> = EntryData::Insert { key: 3, value: "x" };
    let b: EntryData<u32, &str> = EntryData::Remove(3);
    let c: EntryData<u32, &str> = EntryData::Remove(5);
    assert_eq!(a.cmp(&b), Ordering::Equal);
    assert!(a != b);
    assert_eq!(a.partial_cmp(&c), Some(Ordering::Less));
    assert_eq!(c.cmp(&a), Ordering::Greater);
}

#[test]
fn entry_ref_gives_key_value_and_version() {
    let (key, value) = (3u32, "x");
    let there = EntryRef { data: EntryDataRef::Insert { key: &key, value: &value }, version: 8 };
    let gone: EntryRef<'_, u32, &str> = EntryRef { data: EntryDataRef::Remove(&key), version: 9 };
    assert_eq!((*there.key(), there.value(), there.version()), (3, Some(&"x"), 8));
    assert_eq!((*gone.key(), gone.value(), gone.version()), (3, None, 9));
    assert_eq!(there.clone(), there);
    assert_eq!(gone.data.clone(), gone.data);
}

#[test]
fn entry_gives_its_parts() {
    let ent = insert(3, "x", 8);
    assert_eq!((*ent.key(), ent.version()), (3, 8));
    assert_eq!(*ent.data(), EntryData::Insert { key: 3, value: "x" });
    assert_eq!(*remove(4, 1).key(), 4);
    assert_eq!(ent.into_components(), (8, EntryData::Insert { key: 3, value: "x" }));
}

#[test]
fn entries_are_ordered_by_key_then_newest_first() {
    assert_eq!(insert(3, "x", 8).cmp(&remove(3, 7)), Ordering::Less);
    assert_eq!(insert(3, "x", 8).cmp(&insert(3, "y", 8)), Ordering::Equal);
    assert_eq!(insert(4, "x", 9).partial_cmp(&insert(3, "x", 1)), Some(Ordering::Greater));
}

#[test]
fn split_and_unsplit_undo_each_other() {
    let parts = insert(3, "x", 8).split();
    assert_eq!(parts, (3, EntryValue { version: 8, value: Some("x") }));
    assert_eq!(Entry::unsplit(parts.0, parts.1), insert(3, "x", 8));
    let parts = remove(4, 2).split();
    assert_eq!(parts, (4, EntryValue { version: 2, value: None }));
    assert_eq!(Entry::unsplit(parts.0, parts.1), remove(4, 2));
}

#[test]
fn clones_are_equal() {
    let ent = insert(3, "x", 8);
    assert_eq!(ent.clone(), ent);
    assert_eq!(remove(4, 2).clone(), remove(4, 2));
    let value: EntryValue<u8> = EntryValue { version: 3, value: Some(5) };
    assert_eq!(value.clone(), value);
}

#[test]
fn cheap_clones_share_what_they_copy() {
    let (key, value) = (Arc::new(3u32), Arc::new("x"));
    let ent = Entry {
        version: 8,
        data: EntryData::Insert { key: key.clone(), value: value.clone() },
    };
    let copy = ent.cheap_clone();
    assert_eq!(copy, ent);
    assert!(Arc::ptr_eq(copy.key(), &key));
    assert_eq!((Arc::strong_count(&key), Arc::strong_count(&value)), (3, 3));

    let gone: EntryData<Arc<u32>, Arc<&str>> = EntryData::Remove(key.clone());
    assert_eq!(gone.cheap_clone(), gone);

    let there = EntryValue { version: 1, value: Some(value.clone()) };
    let copy = there.cheap_clone();
    assert_eq!(copy, there);
    assert!(Arc::ptr_eq(copy.value.as_ref().unwrap(), &value));
    let empty: EntryValue<Arc<u32>> = EntryValue { version: 2, value: None };
    assert_eq!(empty.cheap_clone(), empty);
}

#[derive(Debug, Clone, PartialEq, Eq)]
struct Counted {
    id: u32,
    copies: Rc<Cell<u32>>,
}

impl CheapClone for Counted {
    fn cheap_clone(&self) -> Self {
        self.copies.set(self.copies.get() + 1);
        self.clone()
    }
}

#[test]
fn cheap_clone_goes_through_the_parts() {
    let (of_keys, of_values) = (Rc::new(Cell::new(0)), Rc::new(Cell::new(0)));
    let key = Counted { id: 1, copies: of_keys.clone() };
    let value = Counted { id: 2, copies: of_values.clone() };
    let ent = Entry { version: 8, data: EntryData::Insert { key, value } };
    let copy = ent.cheap_clone();
    assert_eq!(copy, ent);
    assert_eq!((of_keys.get(), of_values.get()), (1, 1));
    let (_, value) = copy.split();
    let again = value.cheap_clone();
    assert_eq!((again.version, again.value.unwrap().id), (8, 2));
    assert_eq!((of_keys.get(), of_values.get()), (1, 2));
}
