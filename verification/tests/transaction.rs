use core::borrow::Borrow;
use core::hash::Hash;
use indexmap::IndexMap;
use mwmr::commit::{
    batch_entries, Commit, CommitAction, CommitEvent, CreateCommitTimestampResult,
};
use mwmr::error::{TransactionError, WtmError};
use mwmr::modify::settle_insert;
use mwmr::sync::{Cm, CmComparable, CmEquivalent, Pwm, PwmComparable, PwmEquivalent};
use mwmr::types::{Entry, EntryData, EntryDataRef, EntryRef, EntryValue};
use mwmr::write::{settle_contains, settle_get, AsyncWtm, Lookup};

type Value = EntryValue<u32>;
type Failure = &'static str;
type Failed = TransactionError<Failure>;
type Txn = AsyncWtm<String, u32, Recorder, Writes, &'static str>;
type Running = Commit<String, u32, Recorder, Writes, &'static str>;
type Action = CommitAction<String, u32, Recorder, Writes, Failure, String>;

/// Records the marks in the order in which they come. A key in a borrowed form is looked up among
/// the keys it knows.
#[derive(Debug, PartialEq, Eq)]
struct Recorder {
    known: Vec<String>,
    marks: Vec<(&'static str, String)>,
}

impl Recorder {
    fn record(&mut self, mark: &'static str, known: impl Fn(&String) -> bool) {
        let key = self.known.iter().find(|k| known(k)).unwrap().clone();
        self.marks.push((mark, key));
    }
}

impl Cm for Recorder {
    type Error = Failure;
    type Key = String;
    type Options = Vec<String>;

    fn new(options: Vec<String>) -> Result<Self, Failure> {
        Ok(Recorder { known: options, marks: Vec::new() })
    }

    fn mark_read(&mut self, key: &String) {
        self.marks.push(("read", key.clone()));
    }

    fn mark_conflict(&mut self, key: &String) {
        self.marks.push(("conflict", key.clone()));
    }

    fn has_conflict(&self, other: &Self) -> bool {
        self.marks.iter().any(|(mark, key)| {
            *mark == "read" && other.marks.contains(&("conflict", key.clone()))
        })
    }
}

impl CmComparable for Recorder {
    fn mark_read_comparable<Q>(&mut self, key: &Q)
    where
        String: Borrow<Q>,
        Q: Ord + ?Sized,
    {
        self.record("read comparable", |k| k.borrow().cmp(key).is_eq());
    }

    fn mark_conflict_comparable<Q>(&mut self, key: &Q)
    where
        String: Borrow<Q>,
        Q: Ord + ?Sized,
    {
        self.record("conflict comparable", |k| k.borrow().cmp(key).is_eq());
    }
}

impl CmEquivalent for Recorder {
    fn mark_read_equivalent<Q>(&mut self, key: &Q)
    where
        String: Borrow<Q>,
        Q: Hash + Eq + ?Sized,
    {
        self.record("read equivalent", |k| k.borrow() == key);
    }

    fn mark_conflict_equivalent<Q>(&mut self, key: &Q)
    where
        String: Borrow<Q>,
        Q: Hash + Eq + ?Sized,
    {
        self.record("conflict equivalent", |k| k.borrow() == key);
    }
}

/// Keeps the writes in the order of their first insertion. `broken` names a method that fails.
#[derive(Debug, PartialEq, Eq)]
struct Writes {
    map: IndexMap<String, Value>,
    max_entries: u64,
    max_size: u64,
    broken: Failure,
}

impl Writes {
    fn answer<T>(&self, method: Failure, answer: T) -> Result<T, Failure> {
        if self.broken == method {
            Err(method)
        } else {
            Ok(answer)
        }
    }
}

impl Pwm for Writes {
    type Error = Failure;
    type Key = String;
    type Value = u32;
    type Options = (u64, u64);

    fn new(options: (u64, u64)) -> Result<Self, Failure> {
        Ok(Writes { map: IndexMap::new(), max_entries: options.0, max_size: options.1, broken: "" })
    }

    fn is_empty(&self) -> bool {
        self.map.is_empty()
    }

    fn len(&self) -> usize {
        self.map.len()
    }

    fn validate_entry(&self, _entry: &Entry<String, u32>) -> Result<(), Failure> {
        self.answer("validate_entry", ())
    }

    fn max_batch_size(&self) -> u64 {
        self.max_size
    }

    fn max_batch_entries(&self) -> u64 {
        self.max_entries
    }

    // The value tells the size, so that a test can choose it.
    fn estimate_size(&self, entry: &Entry<String, u32>) -> u64 {
        match entry.data().value() {
            Some(&u32::MAX) => u64::MAX,
            Some(value) => *value as u64,
            None => 1,
        }
    }

    fn get(&self, key: &String) -> Result<Option<&Value>, Failure> {
        self.answer("get", self.map.get(key))
    }

    fn contains_key(&self, key: &String) -> Result<bool, Failure> {
        self.answer("contains_key", self.map.contains_key(key))
    }

    fn insert(&mut self, key: String, value: Value) -> Result<(), Failure> {
        self.answer("insert", ())?;
        self.map.insert(key, value);
        Ok(())
    }

    fn remove_entry(&mut self, key: &String) -> Result<Option<(String, Value)>, Failure> {
        self.answer("remove_entry", ())?;
        Ok(self.map.shift_remove_entry(key))
    }

    fn iter(&self) -> Vec<(&String, &Value)> {
        self.map.iter().collect()
    }

    fn into_iter(self) -> Vec<(String, Value)> {
        self.map.into_iter().collect()
    }
}

impl PwmComparable for Writes {
    fn get_comparable<Q>(&self, key: &Q) -> Result<Option<&Value>, Failure>
    where
        String: Borrow<Q>,
        Q: Ord + ?Sized,
    {
        let found = self.get_entry_comparable(key)?;
        self.answer("get_comparable", found.map(|(_, value)| value))
    }

    fn get_entry_comparable<Q>(&self, key: &Q) -> Result<Option<(&String, &Value)>, Failure>
    where
        String: Borrow<Q>,
        Q: Ord + ?Sized,
    {
        let found = self.map.iter().find(|(k, _)| (*k).borrow().cmp(key).is_eq());
        self.answer("get_entry_comparable", found)
    }

    fn contains_key_comparable<Q>(&self, key: &Q) -> Result<bool, Failure>
    where
        String: Borrow<Q>,
        Q: Ord + ?Sized,
    {
        Ok(self.get_comparable(key)?.is_some())
    }

    fn remove_entry_comparable<Q>(&mut self, key: &Q) -> Result<Option<(String, Value)>, Failure>
    where
        String: Borrow<Q>,
        Q: Ord + ?Sized,
    {
        let found = self.get_entry_comparable(key)?.map(|(k, _)| k.clone());
        Ok(found.and_then(|k| self.map.shift_remove_entry(&k)))
    }
}

impl PwmEquivalent for Writes {
    fn get_equivalent<Q>(&self, key: &Q) -> Result<Option<&Value>, Failure>
    where
        String: Borrow<Q>,
        Q: Hash + Eq + ?Sized,
    {
        let found = self.get_entry_equivalent(key)?;
        self.answer("get_equivalent", found.map(|(_, value)| value))
    }

    fn get_entry_equivalent<Q>(&self, key: &Q) -> Result<Option<(&String, &Value)>, Failure>
    where
        String: Borrow<Q>,
        Q: Hash + Eq + ?Sized,
    {
        let found = self.map.iter().find(|(k, _)| (*k).borrow() == key);
        self.answer("get_entry_equivalent", found)
    }

    fn contains_key_equivalent<Q>(&self, key: &Q) -> Result<bool, Failure>
    where
        String: Borrow<Q>,
        Q: Hash + Eq + ?Sized,
    {
        Ok(self.get_equivalent(key)?.is_some())
    }

    fn remove_entry_equivalent<Q>(&mut self, key: &Q) -> Result<Option<(String, Value)>, Failure>
    where
        String: Borrow<Q>,
        Q: Hash + Eq + ?Sized,
    {
        let found = self.get_entry_equivalent(key)?.map(|(k, _)| k.clone());
        Ok(found.and_then(|k| self.map.shift_remove_entry(&k)))
    }
}

fn key(name: &str) -> String {
    String::from(name)
}

fn writes() -> Writes {
    Writes::new((100, 1000)).unwrap()
}

fn recorder() -> Recorder {
    Recorder::new(vec![key("a"), key("b"), key("c")]).unwrap()
}

fn txn_on(pending: Writes) -> Txn {
    AsyncWtm::new(5, "oracle", Some(recorder()), pending)
}

fn txn() -> Txn {
    txn_on(writes())
}

fn marks(txn: &Txn) -> Vec<(&'static str, String)> {
    txn.cm::<Failure>().unwrap().marks.clone()
}

/// What is pending, in the order in which it would be handed out.
fn pending(txn: &Txn) -> Vec<(String, Value)> {
    let pwm = txn.pwm::<Failure>().unwrap();
    pwm.iter().into_iter().map(|(k, v)| (k.clone(), v.clone())).collect()
}

fn there(version: u64, value: u32) -> Value {
    EntryValue { version, value: Some(value) }
}

fn gone(version: u64) -> Value {
    EntryValue { version, value: None }
}

fn inserted(name: &str, value: u32, version: u64) -> Entry<String, u32> {
    Entry { version, data: EntryData::Insert { key: key(name), value } }
}

fn removed(name: &str, version: u64) -> Entry<String, u32> {
    Entry { version, data: EntryData::Remove(key(name)) }
}

#[test]
fn test_() {}

#[test]
fn new_transaction_is_open_and_empty() {
    let txn = txn();
    assert_eq!(txn.version(), 5);
    assert_eq!(*txn.orc(), "oracle");
    assert!(!txn.is_discard());
    assert!(txn.pwm::<Failure>().unwrap().is_empty());
    assert_eq!(marks(&txn), vec![]);
}

#[test]
fn reads_own_insert() {
    let mut txn = txn();
    assert_eq!(txn.insert(key("a"), 7), Ok(()));
    assert_eq!(pending(&txn), vec![(key("a"), there(5, 7))]);
    assert_eq!(txn.contains_key(&key("a")), Ok(Some(true)));
    let a = key("a");
    let expected = EntryRef { data: EntryDataRef::Insert { key: &a, value: &7 }, version: 5 };
    assert_eq!(txn.get(&a), Ok(Some(expected)));
    // The reads were served from the pending writes: only the write is recorded.
    assert_eq!(marks(&txn), vec![("conflict", key("a"))]);
}

#[test]
fn reads_own_remove() {
    let mut txn = txn();
    assert_eq!(txn.remove(key("a")), Ok(()));
    assert_eq!(pending(&txn), vec![(key("a"), gone(5))]);
    assert_eq!(txn.contains_key(&key("a")), Ok(Some(false)));
    assert_eq!(txn.get(&key("a")), Ok(None));
    assert_eq!(marks(&txn), vec![("conflict", key("a"))]);
}

#[test]
fn read_of_missing_key_is_recorded() {
    let mut txn = txn();
    assert_eq!(txn.contains_key(&key("a")), Ok(None));
    assert_eq!(txn.get(&key("b")), Ok(None));
    assert_eq!(marks(&txn), vec![("read", key("a")), ("read", key("b"))]);
}

#[test]
fn nothing_is_recorded_without_conflict_manager() {
    let mut txn: Txn = AsyncWtm::new(5, "oracle", None, writes());
    assert_eq!(txn.get(&key("a")), Ok(None));
    assert_eq!(txn.contains_key(&key("a")), Ok(None));
    assert_eq!(txn.insert(key("a"), 7), Ok(()));
    txn.mark_read(&key("a"));
    txn.mark_conflict(&key("a"));
    assert_eq!(txn.cm::<Failure>(), Err(TransactionError::Discard));
    assert!(txn.marker::<Failure>().unwrap().is_none());
    assert!(txn.cm_mut().is_none());
}

#[test]
fn write_spares_other_keys() {
    let mut txn = txn();
    txn.insert(key("a"), 7).unwrap();
    txn.insert(key("b"), 8).unwrap();
    txn.remove(key("b")).unwrap();
    let a = key("a");
    assert_eq!(txn.get(&a).unwrap().unwrap().value(), Some(&7));
}

#[test]
fn write_of_same_version_overwrites() {
    let mut txn = txn();
    txn.insert(key("a"), 7).unwrap();
    txn.insert(key("a"), 8).unwrap();
    assert_eq!(pending(&txn), vec![(key("a"), there(5, 8))]);
    let stamp = CreateCommitTimestampResult::Timestamp(9);
    assert_eq!(txn.commit_entries(true, stamp), Ok((9, vec![inserted("a", 8, 9)])));
}

#[test]
fn remove_overwrites_insert() {
    let mut txn = txn();
    txn.insert(key("a"), 7).unwrap();
    txn.remove(key("a")).unwrap();
    assert_eq!(pending(&txn), vec![(key("a"), gone(5))]);
    let stamp = CreateCommitTimestampResult::Timestamp(9);
    assert_eq!(txn.commit_entries(true, stamp), Ok((9, vec![removed("a", 9)])));
}

#[test]
fn insert_overwrites_remove() {
    let mut txn = txn();
    txn.remove(key("a")).unwrap();
    txn.insert(key("a"), 7).unwrap();
    assert_eq!(pending(&txn), vec![(key("a"), there(5, 7))]);
    let stamp = CreateCommitTimestampResult::Timestamp(9);
    assert_eq!(txn.commit_entries(true, stamp), Ok((9, vec![inserted("a", 7, 9)])));
}

#[test]
fn run_of_writes_commits_one_entry_per_key() {
    let mut txn = txn();
    for value in 0..4 {
        txn.insert(key("a"), value).unwrap();
        txn.insert(key("b"), 10 + value).unwrap();
        assert_eq!(txn.contains_key(&key("c")), Ok(None));
    }
    txn.remove(key("b")).unwrap();
    let stamp = CreateCommitTimestampResult::Timestamp(9);
    assert_eq!(
        txn.commit_entries(true, stamp),
        Ok((9, vec![inserted("a", 3, 9), removed("b", 9)]))
    );
}

#[test]
fn write_of_other_version_keeps_a_duplicate() {
    let mut held = writes();
    held.map.insert(key("a"), there(3, 7));
    let mut txn = txn_on(held);
    txn.insert(key("a"), 8).unwrap();
    assert_eq!(pending(&txn), vec![(key("a"), there(5, 8))]);
    let stamp = CreateCommitTimestampResult::Timestamp(9);
    assert_eq!(
        txn.commit_entries(true, stamp),
        Ok((9, vec![inserted("a", 8, 9), inserted("a", 7, 9)]))
    );
}

#[test]
fn entry_limit_refuses_a_write() {
    let mut txn = txn_on(Writes::new((3, 1000)).unwrap());
    assert_eq!(txn.insert(key("a"), 1), Ok(()));
    assert_eq!(txn.insert(key("b"), 1), Ok(()));
    assert_eq!(txn.insert(key("c"), 1), Err(TransactionError::LargeTxn));
    assert_eq!(pending(&txn), vec![(key("a"), there(5, 1)), (key("b"), there(5, 1))]);
    assert_eq!(marks(&txn), vec![("conflict", key("a")), ("conflict", key("b"))]);
}

#[test]
fn size_limit_refuses_a_write() {
    let mut txn = txn_on(Writes::new((100, 10)).unwrap());
    assert_eq!(txn.insert(key("a"), 6), Ok(()));
    assert_eq!(txn.insert(key("b"), 4), Err(TransactionError::LargeTxn));
    assert_eq!(txn.insert(key("b"), 3), Ok(()));
    assert_eq!(txn.remove(key("c")), Err(TransactionError::LargeTxn));
    assert_eq!(txn.insert(key("c"), u32::MAX), Err(TransactionError::LargeTxn));
    assert_eq!(pending(&txn), vec![(key("a"), there(5, 6)), (key("b"), there(5, 3))]);
}

/// Takes a write up to the limits.
fn count(txn: &mut Txn, size: u64, max_entries: u64, max_size: u64) -> Result<(), Failed> {
    let ent = txn.insertion(key("a"), 1);
    let valid = txn.plan_write::<Failure>(ent)?.validated(Ok(()))?;
    valid.counted(txn, size, max_entries, max_size).map(|_| ())
}

#[test]
fn write_is_counted_in_if_it_fits() {
    let mut txn = txn();
    assert_eq!(count(&mut txn, 9, 2, 10), Ok(()));
    assert_eq!(count(&mut txn, 0, 2, 10), Err(TransactionError::LargeTxn));
    assert_eq!(count(&mut txn, 1, 3, 10), Err(TransactionError::LargeTxn));
    assert_eq!(count(&mut txn, 0, 3, 10), Ok(()));
    assert_eq!(
        count(&mut txn, u64::MAX, u64::MAX, u64::MAX),
        Err(TransactionError::LargeTxn)
    );
    txn.close();
    assert_eq!(count(&mut txn, 0, 10, 10), Err(TransactionError::Discard));
}

#[test]
fn write_goes_through_its_stages() {
    let mut held = writes();
    held.map.insert(key("a"), there(3, 7));
    let mut txn = txn_on(held);
    let ent = txn.insertion(key("a"), 8);
    let planned = txn.plan_write::<Failure>(ent).unwrap();
    assert_eq!(*planned.entry(), inserted("a", 8, 5));
    let valid = planned.validated::<Failure>(Ok(())).unwrap();
    assert_eq!(*valid.entry(), inserted("a", 8, 5));
    let counted = valid.counted::<_, _, _, Failure>(&mut txn, 1, 10, 10).unwrap();
    assert_eq!(counted.key(), "a");
    let recorded = counted.recorded();
    assert_eq!(recorded.key(), "a");
    let removed = txn.managers::<Failure>().unwrap().0.remove_entry(recorded.key());
    assert_eq!(recorded.cleared(&mut txn, removed), Ok((key("a"), there(5, 8))));
    let stamp = CreateCommitTimestampResult::Timestamp(9);
    assert_eq!(txn.commit_entries(true, stamp), Ok((9, vec![inserted("a", 7, 9)])));
}

#[test]
fn failing_stage_ends_the_write() {
    let mut txn = txn();
    let ent = txn.removal(key("a"));
    let planned = txn.plan_write::<Failure>(ent).unwrap();
    assert!(matches!(planned.validated(Err("bad")), Err(TransactionError::Pwm("bad"))));
    let ent = txn.removal(key("a"));
    let valid = txn.plan_write::<Failure>(ent).unwrap().validated::<Failure>(Ok(())).unwrap();
    let counted = valid.counted::<_, _, _, Failure>(&mut txn, 1, 10, 10).unwrap();
    assert_eq!(
        counted.recorded().cleared(&mut txn, Err("lost")),
        Err(TransactionError::Pwm("lost"))
    );
    assert_eq!(settle_insert::<Failure>(Ok(())), Ok(()));
    assert_eq!(settle_insert(Err("full")), Err(TransactionError::Pwm("full")));
}

#[test]
fn failures_of_the_pending_writes_are_passed_on() {
    let mut invalid = writes();
    invalid.broken = "validate_entry";
    let mut txn = txn_on(invalid);
    assert_eq!(txn.insert(key("a"), 7), Err(TransactionError::Pwm("validate_entry")));
    assert_eq!(marks(&txn), vec![]);

    for broken in ["remove_entry", "insert"] {
        let mut pending = writes();
        pending.broken = broken;
        let mut txn = txn_on(pending);
        assert_eq!(txn.insert(key("a"), 7), Err(TransactionError::Pwm(broken)));
        // The write was counted in and recorded before the failure.
        assert_eq!(marks(&txn), vec![("conflict", key("a"))]);
    }

    let mut pending = writes();
    pending.broken = "get";
    let mut txn = txn_on(pending);
    assert_eq!(txn.get(&key("a")), Err(TransactionError::Pwm("get")));
    assert_eq!(txn.contains_key(&key("a")), Err(TransactionError::pending("get")));
    assert_eq!(marks(&txn), vec![]);
}

#[test]
fn failed_insert_loses_the_write_that_it_displaced() {
    let mut txn = txn();
    txn.insert(key("a"), 7).unwrap();
    txn.managers::<Failure>().unwrap().0.broken = "insert";
    assert_eq!(txn.insert(key("a"), 8), Err(TransactionError::Pwm("insert")));
    assert_eq!(pending(&txn), vec![]);
    assert_eq!(txn.remove(key("a")), Err(TransactionError::Pwm("insert")));
    let stamp = CreateCommitTimestampResult::Timestamp(9);
    assert_eq!(txn.commit_entries(true, stamp), Ok((9, vec![])));
}

#[test]
fn keys_are_marked_by_hand() {
    let mut txn = txn();
    txn.mark_read(&key("a"));
    txn.mark_conflict(&key("b"));
    txn.mark_read_equivalent("a");
    txn.mark_conflict_equivalent("b");
    txn.mark_read_comparable("a");
    txn.mark_conflict_comparable("b");
    txn.cm_mut().unwrap().mark_read(&key("c"));
    assert_eq!(
        marks(&txn),
        vec![
            ("read", key("a")),
            ("conflict", key("b")),
            ("read equivalent", key("a")),
            ("conflict equivalent", key("b")),
            ("read comparable", key("a")),
            ("conflict comparable", key("b")),
            ("read", key("c")),
        ]
    );
}

#[test]
fn marker_marks_reads() {
    let mut txn = txn();
    txn.insert(key("a"), 7).unwrap();
    let mut marker = txn.marker::<Failure>().unwrap().unwrap();
    marker.mark(&key("b"));
    marker.mark(&key("c"));
    let (marker, pwm) = txn.marker_with_pm::<Failure>().unwrap();
    let mut marker = marker.unwrap();
    for (k, _) in pwm.iter() {
        marker.mark(k);
    }
    assert_eq!(
        marks(&txn),
        vec![("conflict", key("a")), ("read", key("b")), ("read", key("c")), ("read", key("a"))]
    );
}

#[test]
fn borrowed_keys_are_tested() {
    let mut txn = txn();
    txn.insert(key("a"), 7).unwrap();
    txn.remove(key("b")).unwrap();
    assert_eq!(txn.contains_key_equivalent("a"), Ok(Some(true)));
    assert_eq!(txn.contains_key_equivalent("b"), Ok(Some(false)));
    assert_eq!(txn.contains_key_equivalent("c"), Ok(None));
    assert_eq!(txn.contains_key_comparable("a"), Ok(Some(true)));
    assert_eq!(txn.contains_key_comparable("b"), Ok(Some(false)));
    assert_eq!(txn.contains_key_comparable("c"), Ok(None));
    assert_eq!(txn.contains_key_comparable_cm_equivalent_pm("a"), Ok(Some(true)));
    assert_eq!(txn.contains_key_comparable_cm_equivalent_pm("b"), Ok(Some(false)));
    assert_eq!(txn.contains_key_comparable_cm_equivalent_pm("c"), Ok(None));
    assert_eq!(txn.contains_key_equivalent_cm_comparable_pm("a"), Ok(Some(true)));
    assert_eq!(txn.contains_key_equivalent_cm_comparable_pm("b"), Ok(Some(false)));
    assert_eq!(txn.contains_key_equivalent_cm_comparable_pm("c"), Ok(None));
    assert_eq!(
        marks(&txn)[2..].to_vec(),
        vec![
            ("read equivalent", key("c")),
            ("read comparable", key("c")),
            ("read comparable", key("c")),
            ("read equivalent", key("c")),
        ]
    );
}

#[test]
fn borrowed_keys_are_read() {
    let mut txn = txn();
    txn.insert(key("a"), 7).unwrap();
    txn.remove(key("b")).unwrap();
    let a = key("a");
    let expected = EntryRef { data: EntryDataRef::Insert { key: &a, value: &7 }, version: 5 };
    assert_eq!(txn.get_equivalent("a"), Ok(Some(expected)));
    assert_eq!(txn.get_equivalent("b"), Ok(None));
    assert_eq!(txn.get_equivalent("c"), Ok(None));
    assert_eq!(txn.get_comparable("a"), Ok(Some(expected)));
    assert_eq!(txn.get_comparable("b"), Ok(None));
    assert_eq!(txn.get_comparable("c"), Ok(None));
    assert_eq!(txn.get_comparable_cm_equivalent_pm("a"), Ok(Some(expected)));
    assert_eq!(txn.get_comparable_cm_equivalent_pm("b"), Ok(None));
    assert_eq!(txn.get_comparable_cm_equivalent_pm("c"), Ok(None));
    assert_eq!(txn.get_equivalent_cm_comparable_pm("a"), Ok(Some(expected)));
    assert_eq!(txn.get_equivalent_cm_comparable_pm("b"), Ok(None));
    assert_eq!(txn.get_equivalent_cm_comparable_pm("c"), Ok(None));
    assert_eq!(
        marks(&txn)[2..].to_vec(),
        vec![
            ("read equivalent", key("c")),
            ("read comparable", key("c")),
            ("read comparable", key("c")),
            ("read equivalent", key("c")),
        ]
    );
}

#[test]
fn failures_of_borrowed_lookups_are_passed_on() {
    let mut pending = writes();
    pending.broken = "get_entry_equivalent";
    let mut txn = txn_on(pending);
    let failure = TransactionError::Pwm("get_entry_equivalent");
    assert_eq!(txn.get_equivalent("a"), Err(failure));
    assert!(txn.contains_key_equivalent("a").is_err());
    assert!(txn.get_comparable_cm_equivalent_pm("a").is_err());
    assert!(txn.contains_key_comparable_cm_equivalent_pm("a").is_err());
    assert_eq!(txn.get_comparable("a"), Ok(None));
    assert_eq!(marks(&txn), vec![("read comparable", key("a"))]);
}

#[test]
fn discarded_transaction_refuses_everything() {
    let mut txn = txn();
    txn.insert(key("a"), 7).unwrap();
    assert_eq!(txn.close(), Some(5));
    assert!(txn.is_discard());
    assert_eq!(txn.close(), None);

    assert_eq!(txn.insert(key("a"), 8), Err(TransactionError::Discard));
    assert_eq!(txn.remove(key("a")), Err(TransactionError::Discard));
    assert_eq!(txn.contains_key(&key("a")), Err(TransactionError::Discard));
    assert_eq!(txn.get(&key("a")), Err(TransactionError::Discard));
    assert_eq!(txn.contains_key_equivalent("a"), Err(TransactionError::Discard));
    assert_eq!(txn.get_equivalent("a"), Err(TransactionError::Discard));
    assert_eq!(txn.contains_key_comparable("a"), Err(TransactionError::Discard));
    assert_eq!(txn.get_comparable("a"), Err(TransactionError::Discard));
    assert_eq!(
        txn.contains_key_comparable_cm_equivalent_pm("a"),
        Err(TransactionError::Discard)
    );
    assert_eq!(txn.get_comparable_cm_equivalent_pm("a"), Err(TransactionError::Discard));
    assert_eq!(
        txn.contains_key_equivalent_cm_comparable_pm("a"),
        Err(TransactionError::Discard)
    );
    assert_eq!(txn.get_equivalent_cm_comparable_pm("a"), Err(TransactionError::Discard));
    assert_eq!(txn.pwm::<Failure>(), Err(TransactionError::Discard));
    assert_eq!(txn.cm::<Failure>(), Err(TransactionError::Discard));
    assert!(matches!(txn.marker::<Failure>(), Err(TransactionError::Discard)));
    assert!(matches!(txn.marker_with_pm::<Failure>(), Err(TransactionError::Discard)));
    assert!(matches!(txn.managers::<Failure>(), Err(TransactionError::Discard)));

    let mut commit = txn.commit();
    let action: Action = commit.step(CommitEvent::Counted { empty: false });
    assert!(matches!(
        action,
        CommitAction::Finish {
            commit_ts: None,
            read_ts: None,
            result: Err(WtmError::Transaction(TransactionError::Discard)),
        }
    ));
}

#[test]
fn discard_releases_the_read_timestamp_once() {
    assert_eq!(txn().discard(), Some(5));
    let mut closed = txn();
    closed.close();
    assert_eq!(closed.discard(), None);
    let mut released = txn();
    assert_eq!(
        released.commit_entries(true, CreateCommitTimestampResult::Conflict(None)),
        Err(TransactionError::Conflict)
    );
    assert_eq!(released.discard(), None);
}

#[test]
fn lookups_are_settled() {
    let (a, value, none) = (key("a"), there(5, 7), gone(0));
    assert_eq!(settle_contains::<u32, Failure>(Ok(Some(&value))), Ok(Lookup::Pending(true)));
    assert_eq!(settle_contains::<u32, Failure>(Ok(Some(&none))), Ok(Lookup::Pending(false)));
    assert_eq!(settle_contains::<u32, Failure>(Ok(None)), Ok(Lookup::Missing));
    assert_eq!(settle_contains::<u32, Failure>(Err("e")), Err(TransactionError::Pwm("e")));
    let expected = EntryRef { data: EntryDataRef::Insert { key: &a, value: &7 }, version: 5 };
    assert_eq!(
        settle_get::<String, u32, Failure>(Ok(Some((&a, &value)))),
        Ok(Lookup::Pending(Some(expected)))
    );
    assert_eq!(
        settle_get::<String, u32, Failure>(Ok(Some((&a, &none)))),
        Ok(Lookup::Pending(None))
    );
    assert_eq!(settle_get::<String, u32, Failure>(Ok(None)), Ok(Lookup::Missing));
    assert_eq!(settle_get::<String, u32, Failure>(Err("e")), Err(TransactionError::Pwm("e")));
}

#[test]
fn batch_holds_writes_then_duplicates() {
    let entries = batch_entries(
        9,
        vec![(key("b"), there(5, 1)), (key("a"), gone(0))],
        vec![inserted("a", 2, 5), removed("c", 0)],
    );
    assert_eq!(
        entries,
        vec![inserted("b", 1, 9), removed("a", 9), inserted("a", 2, 9), removed("c", 9)]
    );
    assert_eq!(batch_entries::<u8, u8>(9, vec![], vec![]), vec![]);
}

#[test]
fn empty_commit_ends_at_once() {
    let mut commit = txn().commit();
    let empty = commit.txn().pwm::<Failure>().unwrap().is_empty();
    let action: Action = commit.step(CommitEvent::Counted { empty });
    assert!(matches!(
        action,
        CommitAction::Finish { commit_ts: None, read_ts: Some(5), result: Ok(()) }
    ));
    assert!(commit.txn().is_discard());
}

#[test]
fn empty_commit_with_task_spawns_a_report() {
    let mut commit = txn().commit_with_task();
    let action: Action = commit.step(CommitEvent::Counted { empty: true });
    assert!(matches!(action, CommitAction::SpawnReport { read_ts: Some(5) }));
    assert!(commit.txn().is_discard());
}

#[test]
fn conflict_ends_the_commit() {
    let mut txn = txn();
    txn.insert(key("a"), 7).unwrap();
    let mut commit = txn.commit();
    let action: Action = commit.step(CommitEvent::Counted { empty: false });
    let CommitAction::Stamp { done_read, read_ts, conflict_manager } = action else {
        panic!("a timestamp is asked for")
    };
    assert_eq!((done_read, read_ts), (false, 5));
    assert_eq!(conflict_manager.as_ref().unwrap().marks, vec![("conflict", key("a"))]);
    let outcome = CreateCommitTimestampResult::Conflict(conflict_manager);
    let action: Action = commit.step(CommitEvent::Stamped { done_read: true, outcome });
    assert!(matches!(
        action,
        CommitAction::Finish {
            commit_ts: None,
            read_ts: None,
            result: Err(WtmError::Transaction(TransactionError::Conflict)),
        }
    ));
    assert!(commit.txn().is_discard());
}

#[test]
fn conflict_without_release_releases_the_read_timestamp() {
    let mut txn = txn();
    txn.insert(key("a"), 7).unwrap();
    let mut commit = txn.commit_with_task();
    let _: Action = commit.step(CommitEvent::Counted { empty: false });
    let outcome = CreateCommitTimestampResult::Conflict(None);
    let action: Action = commit.step(CommitEvent::Stamped { done_read: false, outcome });
    assert!(matches!(
        action,
        CommitAction::Finish {
            commit_ts: None,
            read_ts: Some(5),
            result: Err(WtmError::Transaction(TransactionError::Conflict)),
        }
    ));
}

/// Runs a commit of an insert, an overwrite and a removal up to the drained writes.
fn run_to_batch(task: bool, done_read: bool) -> (Running, Action) {
    let mut txn = txn();
    txn.insert(key("a"), 7).unwrap();
    txn.insert(key("b"), 8).unwrap();
    txn.remove(key("a")).unwrap();
    let mut commit = if task { txn.commit_with_task() } else { txn.commit() };
    let _: Action = commit.step(CommitEvent::Counted { empty: false });
    let outcome = CreateCommitTimestampResult::Timestamp(9);
    let action: Action = commit.step(CommitEvent::Stamped { done_read, outcome });
    let CommitAction::Drain { pending } = action else { panic!("the writes are drained") };
    let action = commit.step(CommitEvent::Drained { writes: pending.into_iter() });
    (commit, action)
}

#[test]
fn commit_applies_the_batch() {
    for (done_read, result, released, expected) in [
        (true, Ok(()), None, Ok(())),
        (false, Ok(()), Some(5), Ok(())),
        (
            true,
            Err(key("disk full")),
            None,
            Err(WtmError::<Failure, String>::commit(key("disk full"))),
        ),
    ] {
        let (mut commit, action) = run_to_batch(false, done_read);
        let CommitAction::Apply { entries } = action else { panic!("the batch is applied") };
        assert_eq!(entries, vec![inserted("b", 8, 9), removed("a", 9)]);
        let action: Action = commit.step(CommitEvent::Applied { result });
        let CommitAction::Finish { commit_ts, read_ts, result } = action else {
            panic!("the commit is over")
        };
        assert_eq!((commit_ts, read_ts, result), (Some(9), released, expected));
        assert!(commit.txn().is_discard());
    }
}

#[test]
fn commit_with_task_hands_the_batch_over() {
    for (done_read, released) in [(true, None), (false, Some(5))] {
        let (commit, action) = run_to_batch(true, done_read);
        let CommitAction::Spawn { entries, commit_ts, read_ts } = action else {
            panic!("a task is spawned")
        };
        assert_eq!(entries, vec![inserted("b", 8, 9), removed("a", 9)]);
        assert_eq!((commit_ts, read_ts), (9, released));
        assert!(commit.txn().is_discard());
    }
}

#[test]
fn oracle_is_asked_with_the_conflict_manager() {
    let mut txn = txn();
    txn.insert(key("a"), 7).unwrap();
    let (done_read, read_ts, conflict_manager) = txn.ask_timestamp();
    assert_eq!((done_read, read_ts), (false, 5));
    assert_eq!(conflict_manager.unwrap().marks, vec![("conflict", key("a"))]);
    assert!(txn.cm_mut().is_none());
}

#[test]
fn timestamp_keeps_the_conflict_manager() {
    let mut txn = txn();
    txn.insert(key("a"), 7).unwrap();
    assert!(txn.cm_mut().is_some());
    let stamp = CreateCommitTimestampResult::Timestamp(9);
    assert!(txn.commit_entries(false, stamp).is_ok());
    assert!(txn.cm_mut().is_none());
    assert_eq!(txn.discard(), Some(5));
}

#[test]
fn commit_entries_takes_the_writes_out() {
    let mut txn = txn();
    txn.insert(key("a"), 7).unwrap();
    let stamp = CreateCommitTimestampResult::Timestamp(9);
    assert_eq!(txn.commit_entries(true, stamp), Ok((9, vec![inserted("a", 7, 9)])));
    assert_eq!(txn.pwm::<Failure>(), Err(TransactionError::Discard));
}

#[test]
fn conflict_hands_the_conflict_manager_back() {
    let mut txn: Txn = AsyncWtm::new(5, "oracle", None, writes());
    txn.insert(key("a"), 7).unwrap();
    let outcome = CreateCommitTimestampResult::Conflict(Some(recorder()));
    assert_eq!(txn.commit_entries(false, outcome), Err(TransactionError::Conflict));
    assert_eq!(txn.cm::<Failure>(), Ok(&recorder()));
    assert_eq!(pending(&txn), vec![(key("a"), there(5, 7))]);
}

#[test]
fn transaction_error_is_wrapped() {
    let wrapped: WtmError<Failure, String> = WtmError::transaction(TransactionError::LargeTxn);
    assert_eq!(wrapped, WtmError::Transaction(TransactionError::LargeTxn));
}

#[test]
fn entries_carry_their_versions_before_the_commit() {
    let txn = txn();
    assert_eq!(txn.insertion(key("a"), 7), inserted("a", 7, 5));
    assert_eq!(txn.removal(key("a")), removed("a", 5));
}
