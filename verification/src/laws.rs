//! What holds of the library as a whole.
use crate::commit::{
    batch, CommitAction, CommitEvent, CommitView, CreateCommitTimestampResult,
};
use crate::error::{TransactionError, WtmError};
use crate::sync::{Cm, Pwm, PwmComparable, PwmEquivalent};
use crate::types::{
    versioned_order, Entry, EntryData, EntryDataRef, EntryRef, EntryValue, Key,
};
use crate::write::{contains_settled, found_at, get_settled, Lookup, WtmView};
use core::cmp::Ordering;
use vstd::laws_cmp::{
    obeys_cmp, obeys_cmp_ord, obeys_cmp_partial_ord, obeys_partial_cmp_spec_properties,
};
use vstd::prelude::*;
use vstd::std_specs::cmp::{OrdSpec, PartialEqSpec, PartialOrdSpec};

verus! {

/// Splitting an entry and putting the parts together again gives the entry back.
pub proof fn law_unsplit_undoes_split<K, V>(entry: Entry<K, V>)
    ensures
        Entry::spec_unsplit(entry.spec_split().0, entry.spec_split().1) == entry,
{
}

/// Putting a key and a value together and splitting the entry again gives the parts back.
pub proof fn law_split_undoes_unsplit<K, V>(key: K, value: EntryValue<V>)
    ensures
        Entry::spec_unsplit(key, value).spec_split() == (key, value),
{
}

/// Of two versions of a key, the newer one comes first.
pub proof fn law_newer_version_first<K: Ord>(key: K, version: u64, version2: u64)
    requires
        obeys_cmp::<K>(),
        key.eq_spec(&key),
        version > version2,
    ensures
        versioned_order(key, version, key, version2) == Ordering::Less,
        versioned_order(key, version2, key, version) == Ordering::Greater,
{
    reveal(obeys_cmp_partial_ord);
    reveal(obeys_cmp_ord);
    assert(key.partial_cmp_spec(&key) == Some(key.cmp_spec(&key)));
}

/// Versioned keys that differ in the key are ordered as the keys are, whatever their versions.
pub proof fn law_key_before_version<K: Ord>(key: K, version: u64, key2: K, version2: u64)
    requires
        key.cmp_spec(&key2) != Ordering::Equal,
    ensures
        versioned_order(key, version, key2, version2) == key.cmp_spec(&key2),
{
}

/// Two versioned keys compare as equal exactly if they are equal.
pub proof fn law_key_order_agrees_with_equality<K: Ord>(a: Key<K>, b: Key<K>)
    requires
        obeys_cmp::<K>(),
    ensures
        a.partial_cmp_spec(&b) == Some(Ordering::Equal) <==> a.eq_spec(&b),
{
    reveal(obeys_cmp_partial_ord);
    reveal(obeys_cmp_ord);
    assert(a@.0.partial_cmp_spec(&b@.0) == Some(a@.0.cmp_spec(&b@.0)));
}

/// The order of versioned keys turns round with its arguments.
pub proof fn law_key_order_is_antisymmetric<K: Ord>(a: Key<K>, b: Key<K>)
    requires
        obeys_cmp::<K>(),
    ensures
        a.partial_cmp_spec(&b) == Some(Ordering::Less) <==> b.partial_cmp_spec(&a) == Some(
            Ordering::Greater,
        ),
{
    reveal(obeys_cmp_ord);
    reveal(obeys_partial_cmp_spec_properties);
    reveal(vstd::laws_eq::obeys_eq_spec_properties);
    assert(a@.0.partial_cmp_spec(&b@.0) == Some(a@.0.cmp_spec(&b@.0)));
    assert(b@.0.partial_cmp_spec(&a@.0) == Some(b@.0.cmp_spec(&a@.0)));
    assert(a@.0.eq_spec(&b@.0) <==> b@.0.eq_spec(&a@.0));
}

/// The order of versioned keys is transitive.
pub proof fn law_key_order_is_transitive<K: Ord>(a: Key<K>, b: Key<K>, c: Key<K>)
    requires
        obeys_cmp::<K>(),
        a.partial_cmp_spec(&b) == Some(Ordering::Less),
        b.partial_cmp_spec(&c) == Some(Ordering::Less),
    ensures
        a.partial_cmp_spec(&c) == Some(Ordering::Less),
{
    reveal(obeys_cmp_ord);
    reveal(obeys_partial_cmp_spec_properties);
    reveal(vstd::laws_eq::obeys_eq_spec_properties);
    let (x, y, z) = (a@.0, b@.0, c@.0);
    assert(x.partial_cmp_spec(&y) == Some(x.cmp_spec(&y)));
    assert(y.partial_cmp_spec(&z) == Some(y.cmp_spec(&z)));
    assert(x.partial_cmp_spec(&z) == Some(x.cmp_spec(&z)));
    assert(y.partial_cmp_spec(&x) == Some(y.cmp_spec(&x)));
    assert(z.partial_cmp_spec(&y) == Some(z.cmp_spec(&y)));
    assert(z.partial_cmp_spec(&x) == Some(z.cmp_spec(&x)));
    assert(x.eq_spec(&y) <==> y.eq_spec(&x));
    assert(y.eq_spec(&z) <==> z.eq_spec(&y));
    assert(x.eq_spec(&z) <==> z.eq_spec(&x));
}

/// A membership test and a read of the same key agree: the key has a value among the pending
/// writes exactly if a read gives it, and one is settled by the pending writes exactly if the
/// other is.
pub proof fn law_contains_agrees_with_get<K, V, E>(
    key: &K,
    found: Result<Option<&EntryValue<V>>, E>,
)
    ensures
        match (contains_settled(found), get_settled(found_at(key, found))) {
            (Ok(Lookup::Pending(there)), Ok(Lookup::Pending(entry))) => there == entry is Some,
            (Ok(Lookup::Missing), Ok(Lookup::Missing)) => true,
            (Err(e), Err(e2)) => e == e2,
            _ => false,
        },
{
}

/// A transaction stays discarded, and its read timestamp is released at most once.
pub proof fn law_discard_once<K, V, C, P, O>(txn: WtmView<K, V, C, P, O>)
    ensures
        txn.closed().discarded,
        txn.closed().closed() == txn.closed(),
        txn.closed().closing_releases() is None,
        txn.done_read ==> txn.closing_releases() is None,
{
}

/// A discarded transaction refuses every write, and stays as it is.
pub proof fn law_discarded_refuses_writes<K, V, C, P, O>(
    txn: WtmView<K, V, C, P, O>,
    ent: Entry<K, V>,
    after: WtmView<K, V, C, P, O>,
    answer: Result<(), TransactionError<P::Error>>,
) where C: Cm<Key = K>, P: Pwm<Key = K, Value = V>
    requires
        txn.closed().modifies(ent, after, answer),
    ensures
        answer matches Err(TransactionError::Discard),
        after == txn.closed(),
{
}

/// A write that is refused because the transaction was discarded or would become too large leaves
/// the transaction as it was.
pub proof fn law_refused_write_changes_nothing<K, V, C, P, O>(
    txn: WtmView<K, V, C, P, O>,
    ent: Entry<K, V>,
    after: WtmView<K, V, C, P, O>,
    answer: Result<(), TransactionError<P::Error>>,
) where C: Cm<Key = K>, P: Pwm<Key = K, Value = V>
    requires
        txn.modifies(ent, after, answer),
        answer matches Err(TransactionError::Discard) || answer matches Err(
            TransactionError::LargeTxn,
        ),
    ensures
        after == txn,
{
}

/// An accepted write adds one to the count and its estimated size to the size, which stay below
/// the limits that the pending writes manager gave. Nothing else about the transaction changes but
/// its managers and the duplicates.
pub proof fn law_accepted_write_is_counted<K, V, C, P, O>(
    txn: WtmView<K, V, C, P, O>,
    ent: Entry<K, V>,
    after: WtmView<K, V, C, P, O>,
) where C: Cm<Key = K>, P: Pwm<Key = K, Value = V>
    requires
        txn.modifies(ent, after, Ok(())),
    ensures
        exists|size: u64, max_entries: u64, max_size: u64|
            {
                &&& #[trigger] txn.pending_writes->0.estimate_size_gives(&ent, size)
                &&& #[trigger] txn.pending_writes->0.max_batch_entries_gives(max_entries)
                &&& #[trigger] txn.pending_writes->0.max_batch_size_gives(max_size)
                &&& after.count == txn.count + 1 < max_entries
                &&& after.size == txn.size + size < max_size
            },
        after == (WtmView {
            count: after.count,
            size: after.size,
            conflict_manager: after.conflict_manager,
            pending_writes: after.pending_writes,
            duplicate_writes: after.duplicate_writes,
            ..txn
        }),
{
}

/// An accepted write is recorded in the conflict manager, and only its key is. Without a conflict
/// manager nothing is.
pub proof fn law_accepted_write_is_recorded<K, V, C, P, O>(
    txn: WtmView<K, V, C, P, O>,
    ent: Entry<K, V>,
    after: WtmView<K, V, C, P, O>,
) where C: Cm<Key = K>, P: Pwm<Key = K, Value = V>
    requires
        txn.modifies(ent, after, Ok(())),
    ensures
        match (txn.conflict_manager, after.conflict_manager) {
            (None, None) => true,
            (Some(cm), Some(cm2)) => cm.mark_conflict_makes(&ent.spec_split().0, &cm2),
            _ => false,
        },
{
}

/// Whether every manager of the type `P` keeps its writes as a map does, where `held` tells what
/// a manager holds. A call that fails may do anything.
pub open spec fn keeps_a_map<P: Pwm>(
    held: spec_fn(P) -> Map<P::Key, EntryValue<P::Value>>,
) -> bool {
    &&& forall|p: P, key: P::Key, found: Result<Option<&EntryValue<P::Value>>, P::Error>|
        #[trigger]
        p.get_gives(&key, found) ==> match found {
            Ok(Some(value)) => held(p).contains_key(key) && held(p)[key] == *value,
            Ok(None) => !held(p).contains_key(key),
            Err(_) => true,
        }
    &&& forall|
        p: P,
        key: P::Key,
        value: EntryValue<P::Value>,
        after: P,
        answer: Result<(), P::Error>,
    | #[trigger]
        p.insert_makes(key, value, &after, answer) ==> match answer {
            Ok(()) => held(after) == held(p).insert(key, value),
            Err(_) => true,
        }
    &&& forall|
        p: P,
        key: P::Key,
        after: P,
        answer: Result<Option<(P::Key, EntryValue<P::Value>)>, P::Error>,
    | #[trigger]
        p.remove_entry_makes(&key, &after, answer) ==> match answer {
            Ok(removed) => {
                &&& held(after) == held(p).remove(key)
                &&& removed == (if held(p).contains_key(key) {
                    Some((key, held(p)[key]))
                } else {
                    None
                })
            },
            Err(_) => true,
        }
}

/// Whether every manager of the type `P` hands out exactly the writes that it holds, each key
/// once.
pub open spec fn hands_out_its_map<P: Pwm>(
    held: spec_fn(P) -> Map<P::Key, EntryValue<P::Value>>,
) -> bool {
    &&& forall|
        p: P,
        writes: Seq<(P::Key, EntryValue<P::Value>)>,
        key: P::Key,
        value: EntryValue<P::Value>,
    |
        #![trigger p.into_iter_gives(writes), writes.contains((key, value))]
        p.into_iter_gives(writes) ==> (writes.contains((key, value)) <==> held(p).contains_key(key)
            && held(p)[key] == value)
    &&& forall|p: P, writes: Seq<(P::Key, EntryValue<P::Value>)>, i: int, j: int|
        #![trigger p.into_iter_gives(writes), writes[i], writes[j]]
        p.into_iter_gives(writes) && 0 <= i < j < writes.len() ==> writes[i].0 != writes[j].0
}

/// Whether every manager of the type `P` looks the borrowed, hashed form `form` up as it does
/// `key`.
pub open spec fn finds_equivalent<P: PwmEquivalent, Q: ?Sized>(
    held: spec_fn(P) -> Map<P::Key, EntryValue<P::Value>>,
    form: &Q,
    key: P::Key,
) -> bool {
    &&& forall|p: P, found: Result<Option<&EntryValue<P::Value>>, P::Error>| #[trigger]
        p.get_equivalent_gives(form, found) ==> match found {
            Ok(Some(value)) => held(p).contains_key(key) && held(p)[key] == *value,
            Ok(None) => !held(p).contains_key(key),
            Err(_) => true,
        }
    &&& forall|p: P, found: Result<Option<(&P::Key, &EntryValue<P::Value>)>, P::Error>| #[trigger]
        p.get_entry_equivalent_gives(form, found) ==> match found {
            Ok(Some((k, value))) => {
                *k == key && held(p).contains_key(key) && held(p)[key] == *value
            },
            Ok(None) => !held(p).contains_key(key),
            Err(_) => true,
        }
}

/// Whether every manager of the type `P` looks the borrowed, ordered form `form` up as it does
/// `key`.
pub open spec fn finds_comparable<P: PwmComparable, Q: ?Sized>(
    held: spec_fn(P) -> Map<P::Key, EntryValue<P::Value>>,
    form: &Q,
    key: P::Key,
) -> bool {
    &&& forall|p: P, found: Result<Option<&EntryValue<P::Value>>, P::Error>| #[trigger]
        p.get_comparable_gives(form, found) ==> match found {
            Ok(Some(value)) => held(p).contains_key(key) && held(p)[key] == *value,
            Ok(None) => !held(p).contains_key(key),
            Err(_) => true,
        }
    &&& forall|p: P, found: Result<Option<(&P::Key, &EntryValue<P::Value>)>, P::Error>| #[trigger]
        p.get_entry_comparable_gives(form, found) ==> match found {
            Ok(Some((k, value))) => {
                *k == key && held(p).contains_key(key) && held(p)[key] == *value
            },
            Ok(None) => !held(p).contains_key(key),
            Err(_) => true,
        }
}

/// After an accepted write the pending writes hold it and, at every other key, what they held
/// before. What they held at its own key is kept as a duplicate if it has another version, and is
/// overwritten otherwise.
pub proof fn law_write_is_held<K, V, C, P, O>(
    held: spec_fn(P) -> Map<K, EntryValue<V>>,
    txn: WtmView<K, V, C, P, O>,
    ent: Entry<K, V>,
    after: WtmView<K, V, C, P, O>,
) where C: Cm<Key = K>, P: Pwm<Key = K, Value = V>
    requires
        keeps_a_map::<P>(held),
        txn.modifies(ent, after, Ok(())),
    ensures
        ({
            let (key, value) = ent.spec_split();
            let before = held(txn.pending_writes->0);
            &&& after.pending_writes is Some
            &&& held(after.pending_writes->0) == before.insert(key, value)
            &&& after.duplicate_writes == if before.contains_key(key) && before[key].version
                != ent.version {
                txn.duplicate_writes.push(Entry::spec_unsplit(key, before[key]))
            } else {
                txn.duplicate_writes
            }
        }),
{
    let (key, value) = ent.spec_split();
    let before = held(txn.pending_writes->0);
    assert(before.remove(key).insert(key, value) =~= before.insert(key, value));
}

/// A transaction reads its own insert: after one that was accepted, reading the key gives the
/// value at the read timestamp, testing it tells that it is there, and neither is recorded as a
/// read.
pub proof fn law_reads_own_insert<K, V, C, P, O>(
    held: spec_fn(P) -> Map<K, EntryValue<V>>,
    txn: WtmView<K, V, C, P, O>,
    key: K,
    value: V,
    written: WtmView<K, V, C, P, O>,
    found: Option<&EntryValue<V>>,
    mark: spec_fn(C, C) -> bool,
    after: WtmView<K, V, C, P, O>,
) where C: Cm<Key = K>, P: Pwm<Key = K, Value = V>
    requires
        keeps_a_map::<P>(held),
        txn.modifies(txn.insertion(key, value), written, Ok(())),
        written.pending_writes->0.get_gives(&key, Ok(found)),
    ensures
        forall|answer: Result<Option<EntryRef<'_, K, V>>, TransactionError<P::Error>>|
            written.reads_key(found_at(&key, Ok(found)), mark, after, answer) ==> {
                &&& answer == Ok::<_, TransactionError<P::Error>>(
                    Some(
                        EntryRef {
                            data: EntryDataRef::Insert { key: &key, value: &value },
                            version: txn.read_ts,
                        },
                    ),
                )
                &&& after == written
            },
        forall|answer: Result<Option<bool>, TransactionError<P::Error>>|
            written.tests_key(Ok(found), mark, after, answer) ==> {
                &&& answer == Ok::<_, TransactionError<P::Error>>(Some(true))
                &&& after == written
            },
{
    law_write_is_held(held, txn, txn.insertion(key, value), written);
}

/// A transaction reads its own removal: after one that was accepted, reading the key gives
/// nothing, testing it tells that it is removed, and neither is recorded as a read.
pub proof fn law_reads_own_remove<K, V, C, P, O>(
    held: spec_fn(P) -> Map<K, EntryValue<V>>,
    txn: WtmView<K, V, C, P, O>,
    key: K,
    written: WtmView<K, V, C, P, O>,
    found: Option<&EntryValue<V>>,
    mark: spec_fn(C, C) -> bool,
    after: WtmView<K, V, C, P, O>,
) where C: Cm<Key = K>, P: Pwm<Key = K, Value = V>
    requires
        keeps_a_map::<P>(held),
        txn.modifies(txn.removal(key), written, Ok(())),
        written.pending_writes->0.get_gives(&key, Ok(found)),
    ensures
        forall|answer: Result<Option<EntryRef<'_, K, V>>, TransactionError<P::Error>>|
            written.reads_key(found_at(&key, Ok(found)), mark, after, answer) ==> {
                &&& answer == Ok::<Option<EntryRef<'_, K, V>>, TransactionError<P::Error>>(None)
                &&& after == written
            },
        forall|answer: Result<Option<bool>, TransactionError<P::Error>>|
            written.tests_key(Ok(found), mark, after, answer) ==> {
                &&& answer == Ok::<_, TransactionError<P::Error>>(Some(false))
                &&& after == written
            },
{
    law_write_is_held(held, txn, txn.removal(key), written);
}

/// A transaction reads its own writes by the borrowed, hashed form of the key: after an accepted
/// write, reading gives the value of an insert and nothing of a removal, testing tells which of
/// them it was, and neither is recorded as a read.
pub proof fn law_equivalent_lookup_reads_own_write<K, V, C, P, O, Q: ?Sized>(
    held: spec_fn(P) -> Map<K, EntryValue<V>>,
    txn: WtmView<K, V, C, P, O>,
    ent: Entry<K, V>,
    written: WtmView<K, V, C, P, O>,
    form: &Q,
    found: Option<&EntryValue<V>>,
    found_entry: Option<(&K, &EntryValue<V>)>,
    mark: spec_fn(C, C) -> bool,
    after: WtmView<K, V, C, P, O>,
) where C: Cm<Key = K>, P: PwmEquivalent<Key = K, Value = V>
    requires
        keeps_a_map::<P>(held),
        finds_equivalent::<P, Q>(held, form, ent.data.spec_key()),
        txn.modifies(ent, written, Ok(())),
        written.pending_writes->0.get_equivalent_gives(form, Ok(found)),
        written.pending_writes->0.get_entry_equivalent_gives(form, Ok(found_entry)),
    ensures
        forall|answer: Result<Option<EntryRef<'_, K, V>>, TransactionError<P::Error>>|
            written.reads_key(Ok(found_entry), mark, after, answer) ==> {
                &&& answer == Ok::<_, TransactionError<P::Error>>(
                    match ent.data {
                        EntryData::Insert { key, value } => Some(
                            EntryRef {
                                data: EntryDataRef::Insert { key: &key, value: &value },
                                version: ent.version,
                            },
                        ),
                        EntryData::Remove(_) => None,
                    },
                )
                &&& after == written
            },
        forall|answer: Result<Option<bool>, TransactionError<P::Error>>|
            written.tests_key(Ok(found), mark, after, answer) ==> {
                &&& answer == Ok::<_, TransactionError<P::Error>>(Some(ent.data is Insert))
                &&& after == written
            },
{
    law_write_is_held(held, txn, ent, written);
}

/// A transaction reads its own writes by the borrowed, ordered form of the key: after an accepted
/// write, reading gives the value of an insert and nothing of a removal, testing tells which of
/// them it was, and neither is recorded as a read.
pub proof fn law_comparable_lookup_reads_own_write<K, V, C, P, O, Q: ?Sized>(
    held: spec_fn(P) -> Map<K, EntryValue<V>>,
    txn: WtmView<K, V, C, P, O>,
    ent: Entry<K, V>,
    written: WtmView<K, V, C, P, O>,
    form: &Q,
    found: Option<&EntryValue<V>>,
    found_entry: Option<(&K, &EntryValue<V>)>,
    mark: spec_fn(C, C) -> bool,
    after: WtmView<K, V, C, P, O>,
) where C: Cm<Key = K>, P: PwmComparable<Key = K, Value = V>
    requires
        keeps_a_map::<P>(held),
        finds_comparable::<P, Q>(held, form, ent.data.spec_key()),
        txn.modifies(ent, written, Ok(())),
        written.pending_writes->0.get_comparable_gives(form, Ok(found)),
        written.pending_writes->0.get_entry_comparable_gives(form, Ok(found_entry)),
    ensures
        forall|answer: Result<Option<EntryRef<'_, K, V>>, TransactionError<P::Error>>|
            written.reads_key(Ok(found_entry), mark, after, answer) ==> {
                &&& answer == Ok::<_, TransactionError<P::Error>>(
                    match ent.data {
                        EntryData::Insert { key, value } => Some(
                            EntryRef {
                                data: EntryDataRef::Insert { key: &key, value: &value },
                                version: ent.version,
                            },
                        ),
                        EntryData::Remove(_) => None,
                    },
                )
                &&& after == written
            },
        forall|answer: Result<Option<bool>, TransactionError<P::Error>>|
            written.tests_key(Ok(found), mark, after, answer) ==> {
                &&& answer == Ok::<_, TransactionError<P::Error>>(Some(ent.data is Insert))
                &&& after == written
            },
{
    law_write_is_held(held, txn, ent, written);
}

/// A write to one key does not change what a transaction reads at another.
pub proof fn law_write_spares_other_keys<K, V, C, P, O>(
    held: spec_fn(P) -> Map<K, EntryValue<V>>,
    txn: WtmView<K, V, C, P, O>,
    ent: Entry<K, V>,
    written: WtmView<K, V, C, P, O>,
    other: K,
    found: Option<&EntryValue<V>>,
    found2: Option<&EntryValue<V>>,
) where C: Cm<Key = K>, P: Pwm<Key = K, Value = V>
    requires
        keeps_a_map::<P>(held),
        txn.modifies(ent, written, Ok(())),
        other != ent.spec_split().0,
        txn.pending_writes->0.get_gives(&other, Ok(found)),
        written.pending_writes->0.get_gives(&other, Ok(found2)),
    ensures
        found == found2,
{
    law_write_is_held(held, txn, ent, written);
}

/// The batch of a commit holds every pending write and every duplicate once, and nothing else;
/// all of it carries the commit timestamp.
pub proof fn law_batch_is_complete<K, V>(
    commit_ts: u64,
    writes: Seq<(K, EntryValue<V>)>,
    duplicates: Seq<Entry<K, V>>,
)
    ensures
        ({
            let entries = batch(commit_ts, writes, duplicates);
            &&& entries.len() == writes.len() + duplicates.len()
            &&& forall|i: int| 0 <= i < entries.len() ==> (#[trigger] entries[i]).version
                == commit_ts
            &&& forall|i: int|
                0 <= i < writes.len() ==> (#[trigger] entries[i]).spec_split() == (
                    writes[i].0,
                    EntryValue { version: commit_ts, value: writes[i].1.value },
                )
            &&& forall|i: int|
                0 <= i < duplicates.len() ==> entries[writes.len() + i].data == (
                #[trigger] duplicates[i]).data
        }),
{
}

/// A commit carries every write: the batch that is made of the pending writes after a write was
/// accepted holds that write, at the commit timestamp. For a removal that is the delete marker.
pub proof fn law_commit_carries_write<K, V, C, P, O>(
    held: spec_fn(P) -> Map<K, EntryValue<V>>,
    txn: WtmView<K, V, C, P, O>,
    ent: Entry<K, V>,
    written: WtmView<K, V, C, P, O>,
    writes: Seq<(K, EntryValue<V>)>,
    commit_ts: u64,
) where C: Cm<Key = K>, P: Pwm<Key = K, Value = V>
    requires
        keeps_a_map::<P>(held),
        hands_out_its_map::<P>(held),
        txn.modifies(ent, written, Ok(())),
        written.pending_writes->0.into_iter_gives(writes),
    ensures
        batch(commit_ts, writes, written.duplicate_writes).contains(
            Entry { version: commit_ts, data: ent.data },
        ),
{
    law_write_is_held(held, txn, ent, written);
    let entries = batch(commit_ts, writes, written.duplicate_writes);
    assert(writes.contains(ent.spec_split()));
    let i = choose|i: int| 0 <= i < writes.len() && writes[i] == ent.spec_split();
    assert(entries[i] == (Entry { version: commit_ts, data: ent.data }));
}

/// Whether every pending write carries the read timestamp and none was displaced. So it is with a
/// transaction that started on an empty manager, and so it stays.
pub open spec fn one_version<K, V, C, P, O>(
    held: spec_fn(P) -> Map<K, EntryValue<V>>,
    txn: WtmView<K, V, C, P, O>,
) -> bool {
    &&& txn.duplicate_writes.len() == 0
    &&& forall|key: K| #[trigger]
        held(txn.pending_writes->0).contains_key(key) ==> held(
            txn.pending_writes->0,
        )[key].version == txn.read_ts
}

/// Whether a transaction was just started on an empty manager.
pub open spec fn fresh<K, V, C, P, O>(
    held: spec_fn(P) -> Map<K, EntryValue<V>>,
    txn: WtmView<K, V, C, P, O>,
) -> bool {
    &&& txn.pending_writes is Some
    &&& held(txn.pending_writes->0) == Map::<K, EntryValue<V>>::empty()
    &&& txn.duplicate_writes.len() == 0
}

/// Whether `ent` is what `insert` or `remove` writes.
pub open spec fn is_write_of<K, V, C, P, O>(
    txn: WtmView<K, V, C, P, O>,
    ent: Entry<K, V>,
) -> bool {
    match ent.data {
        EntryData::Insert { key, value } => ent == txn.insertion(key, value),
        EntryData::Remove(key) => ent == txn.removal(key),
    }
}

/// A transaction that started on an empty manager has writes of one version, and every accepted
/// insert or removal keeps it so: each overwrites the pending write of its key, none is displaced.
pub proof fn law_writes_keep_one_version<K, V, C, P, O>(
    held: spec_fn(P) -> Map<K, EntryValue<V>>,
    txn: WtmView<K, V, C, P, O>,
    ent: Entry<K, V>,
    after: WtmView<K, V, C, P, O>,
) where C: Cm<Key = K>, P: Pwm<Key = K, Value = V>
    requires
        keeps_a_map::<P>(held),
        is_write_of(txn, ent),
        txn.modifies(ent, after, Ok(())),
    ensures
        fresh(held, txn) ==> one_version(held, txn),
        one_version(held, txn) ==> one_version(held, after),
{
    law_write_is_held(held, txn, ent, after);
    law_accepted_write_is_counted(txn, ent, after);
}

/// A commit shows the last write of a key: after an insert or a removal was accepted, the batch
/// holds it at the commit timestamp, and says nothing else of its key. So reads after the commit
/// see the value that was inserted last, or the deletion.
pub proof fn law_commit_shows_last_write<K, V, C, P, O>(
    held: spec_fn(P) -> Map<K, EntryValue<V>>,
    txn: WtmView<K, V, C, P, O>,
    ent: Entry<K, V>,
    written: WtmView<K, V, C, P, O>,
    writes: Seq<(K, EntryValue<V>)>,
    commit_ts: u64,
) where C: Cm<Key = K>, P: Pwm<Key = K, Value = V>
    requires
        keeps_a_map::<P>(held),
        hands_out_its_map::<P>(held),
        one_version(held, txn),
        is_write_of(txn, ent),
        txn.modifies(ent, written, Ok(())),
        written.pending_writes->0.into_iter_gives(writes),
    ensures
        ({
            let entries = batch(commit_ts, writes, written.duplicate_writes);
            let last = Entry { version: commit_ts, data: ent.data };
            &&& entries.contains(last)
            &&& forall|i: int|
                0 <= i < entries.len() && (#[trigger] entries[i]).data.spec_key()
                    == ent.data.spec_key() ==> entries[i] == last
        }),
{
    law_write_is_held(held, txn, ent, written);
    law_writes_keep_one_version(held, txn, ent, written);
    law_commit_carries_write(held, txn, ent, written, writes, commit_ts);
    let entries = batch(commit_ts, writes, written.duplicate_writes);
    assert forall|i: int|
        0 <= i < entries.len() && (#[trigger] entries[i]).data.spec_key()
            == ent.data.spec_key() implies entries[i] == (Entry {
        version: commit_ts,
        data: ent.data,
    }) by {
        assert(writes.contains((writes[i].0, writes[i].1)));
    }
}

/// Whether `next` is `txn` after the insert or removal `ent` was accepted. What reads record in
/// between concerns the conflict manager alone.
pub open spec fn writes_next<K, V, C, P, O>(
    txn: WtmView<K, V, C, P, O>,
    ent: Entry<K, V>,
    next: WtmView<K, V, C, P, O>,
) -> bool where C: Cm<Key = K>, P: Pwm<Key = K, Value = V> {
    &&& is_write_of(txn, ent)
    &&& exists|after: WtmView<K, V, C, P, O>|
        {
            &&& #[trigger] txn.modifies(ent, after, Ok(()))
            &&& next == WtmView { conflict_manager: next.conflict_manager, ..after }
        }
}

/// Whether `txns` are the states of a transaction between the accepted inserts and removals
/// `ents`.
pub open spec fn is_run<K, V, C, P, O>(
    txns: Seq<WtmView<K, V, C, P, O>>,
    ents: Seq<Entry<K, V>>,
) -> bool where C: Cm<Key = K>, P: Pwm<Key = K, Value = V> {
    &&& txns.len() == ents.len() + 1
    &&& forall|i: int|
        0 <= i < ents.len() ==> writes_next(txns[i], #[trigger] ents[i], txns[i + 1])
}

/// The last of the entries that speaks of `key`.
pub open spec fn last_write<K, V>(ents: Seq<Entry<K, V>>, key: K) -> Option<Entry<K, V>>
    decreases ents.len(),
{
    if ents.len() == 0 {
        None
    } else if ents.last().data.spec_key() == key {
        Some(ents.last())
    } else {
        last_write(ents.drop_last(), key)
    }
}

/// After any run of accepted inserts and removals the pending writes hold, for each key, the last
/// write of it, and no other; none was displaced.
pub proof fn law_run_holds_last_writes<K, V, C, P, O>(
    held: spec_fn(P) -> Map<K, EntryValue<V>>,
    txns: Seq<WtmView<K, V, C, P, O>>,
    ents: Seq<Entry<K, V>>,
) where C: Cm<Key = K>, P: Pwm<Key = K, Value = V>
    requires
        keeps_a_map::<P>(held),
        is_run(txns, ents),
        fresh(held, txns.first()),
    ensures
        one_version(held, txns.last()),
        forall|key: K|
            match #[trigger] last_write(ents, key) {
                Some(ent) => {
                    &&& held(txns.last().pending_writes->0).contains_key(key)
                    &&& (key, held(txns.last().pending_writes->0)[key]) == ent.spec_split()
                },
                None => !held(txns.last().pending_writes->0).contains_key(key),
            },
    decreases ents.len(),
{
    if ents.len() > 0 {
        let n = ents.len() - 1;
        let before = txns.drop_last();
        assert forall|i: int| 0 <= i < ents.drop_last().len() implies writes_next(
            before[i],
            #[trigger] ents.drop_last()[i],
            before[i + 1],
        ) by {
            assert(ents.drop_last()[i] == ents[i]);
        }
        law_run_holds_last_writes(held, before, ents.drop_last());
        let (txn, ent, next) = (txns[n], ents[n], txns[n + 1]);
        assert(writes_next(txn, ent, next));
        let after = choose|after: WtmView<K, V, C, P, O>|
            {
                &&& #[trigger] txn.modifies(ent, after, Ok(()))
                &&& next == WtmView { conflict_manager: next.conflict_manager, ..after }
            };
        law_write_is_held(held, txn, ent, after);
        law_writes_keep_one_version(held, txn, ent, after);
        assert forall|key: K|
            match #[trigger] last_write(ents, key) {
                Some(e) => {
                    &&& held(next.pending_writes->0).contains_key(key)
                    &&& (key, held(next.pending_writes->0)[key]) == e.spec_split()
                },
                None => !held(next.pending_writes->0).contains_key(key),
            } by {
            // What the run held at the key before its last write.
            let _ = last_write(ents.drop_last(), key);
        }
    }
}

/// Any run of accepted inserts and removals commits exactly one entry for each key that it wrote:
/// the last write of that key, at the commit timestamp.
pub proof fn law_run_commits_one_entry_per_key<K, V, C, P, O>(
    held: spec_fn(P) -> Map<K, EntryValue<V>>,
    txns: Seq<WtmView<K, V, C, P, O>>,
    ents: Seq<Entry<K, V>>,
    writes: Seq<(K, EntryValue<V>)>,
    commit_ts: u64,
) where C: Cm<Key = K>, P: Pwm<Key = K, Value = V>
    requires
        keeps_a_map::<P>(held),
        hands_out_its_map::<P>(held),
        is_run(txns, ents),
        fresh(held, txns.first()),
        txns.last().pending_writes->0.into_iter_gives(writes),
    ensures
        ({
            let entries = batch(commit_ts, writes, txns.last().duplicate_writes);
            &&& forall|i: int|
                0 <= i < entries.len() ==> {
                    &&& last_write(ents, (#[trigger] entries[i]).data.spec_key()) matches Some(ent)
                    &&& entries[i] == Entry { version: commit_ts, data: ent.data }
                }
            &&& forall|i: int, j: int|
                0 <= i < j < entries.len() ==> (#[trigger] entries[i]).data.spec_key() != (
                #[trigger] entries[j]).data.spec_key()
            &&& forall|key: K|
                (#[trigger] last_write(ents, key)) matches Some(ent) ==> entries.contains(
                    Entry { version: commit_ts, data: ent.data },
                )
        }),
{
    law_run_holds_last_writes(held, txns, ents);
    let end = txns.last();
    let p = end.pending_writes->0;
    let entries = batch(commit_ts, writes, end.duplicate_writes);
    assert forall|i: int| 0 <= i < entries.len() implies {
        &&& last_write(ents, (#[trigger] entries[i]).data.spec_key()) matches Some(ent)
        &&& entries[i] == Entry { version: commit_ts, data: ent.data }
    } by {
        assert(writes.contains((writes[i].0, writes[i].1)));
        let ent = last_write(ents, writes[i].0)->0;
        assert(last_write(ents, writes[i].0) is Some);
        assert(ent.spec_split() == (writes[i].0, writes[i].1));
        law_unsplit_undoes_split(ent);
    }
    assert forall|i: int, j: int| 0 <= i < j < entries.len() implies (
    #[trigger] entries[i]).data.spec_key() != (#[trigger] entries[j]).data.spec_key() by {
        assert(writes[i].0 != writes[j].0);
    }
    assert forall|key: K| (#[trigger] last_write(ents, key)) matches Some(ent) implies entries.contains(
        Entry { version: commit_ts, data: last_write(ents, key)->0.data },
    ) by {
        let ent = last_write(ents, key)->0;
        assert(writes.contains((key, held(p)[key])));
        let i = choose|i: int| 0 <= i < writes.len() && writes[i] == (key, held(p)[key]);
        law_unsplit_undoes_split(ent);
        assert(entries[i] == (Entry { version: commit_ts, data: ent.data }));
    }
}

/// A commit without pending writes succeeds at once: it asks for no timestamp, writes nothing, and
/// discards the transaction. With a task of its own, the task is started and reports the success.
pub proof fn law_empty_commit_succeeds<K, V, C, P, O, E, X>(
    start: CommitView<K, V, C, P, O>,
    end: CommitView<K, V, C, P, O>,
    action: CommitAction<K, V, C, P, E, X>,
)
    requires
        start.stage is Start,
        !start.txn.discarded,
        start.steps(CommitEvent::Counted { empty: true }, end, action),
    ensures
        end.stage is Over,
        end.txn.discarded,
        ({
            let released = if start.txn.done_read {
                None
            } else {
                Some(start.txn.read_ts)
            };
            action == if start.in_task {
                CommitAction::<K, V, C, P, E, X>::SpawnReport { read_ts: released }
            } else {
                CommitAction::<K, V, C, P, E, X>::Finish {
                    commit_ts: None,
                    read_ts: released,
                    result: Ok(()),
                }
            }
        }),
{
}

/// A discarded transaction cannot be committed: it is refused at once, and nothing is released or
/// written.
pub proof fn law_discarded_refuses_commit<K, V, C, P, O, E, X>(
    start: CommitView<K, V, C, P, O>,
    empty: bool,
    end: CommitView<K, V, C, P, O>,
    action: CommitAction<K, V, C, P, E, X>,
)
    requires
        start.stage is Start,
        start.txn.discarded,
        start.steps(CommitEvent::Counted { empty }, end, action),
    ensures
        end.stage is Over,
        end.txn == start.txn,
        action == (CommitAction::<K, V, C, P, E, X>::Finish {
            commit_ts: None,
            read_ts: None,
            result: Err(WtmError::Transaction(TransactionError::Discard)),
        }),
{
}

/// A conflict ends the commit: nothing is handed to the database, no commit timestamp is
/// released, the transaction keeps its writes and gets its conflict manager back, and the read
/// timestamp is released unless the oracle did it.
pub proof fn law_conflict_writes_nothing<K, V, C, P, O, E, X>(
    start: CommitView<K, V, C, P, O>,
    asked: CommitView<K, V, C, P, O>,
    request: CommitAction<K, V, C, P, E, X>,
    done_read: bool,
    conflict_manager: Option<C>,
    end: CommitView<K, V, C, P, O>,
    action: CommitAction<K, V, C, P, E, X>,
)
    requires
        start.stage is Start,
        !start.txn.discarded,
        start.steps(CommitEvent::Counted { empty: false }, asked, request),
        asked.steps(
            CommitEvent::Stamped {
                done_read,
                outcome: CreateCommitTimestampResult::Conflict(conflict_manager),
            },
            end,
            action,
        ),
    ensures
        request == (CommitAction::<K, V, C, P, E, X>::Stamp {
            done_read: start.txn.done_read,
            read_ts: start.txn.read_ts,
            conflict_manager: start.txn.conflict_manager,
        }),
        action == (CommitAction::<K, V, C, P, E, X>::Finish {
            commit_ts: None,
            read_ts: if done_read {
                None
            } else {
                Some(start.txn.read_ts)
            },
            result: Err(WtmError::Transaction(TransactionError::Conflict)),
        }),
        end.stage is Over,
        end.txn == (WtmView { conflict_manager, discarded: true, done_read: true, ..start.txn }),
{
}

/// A commit that gets a timestamp hands the whole batch to the database and then, whether that
/// succeeded or not, releases the commit timestamp, releases the read timestamp unless the oracle
/// did it, and reports what the database said.
pub proof fn law_commit_runs_to_its_end<K, V, C, P, O, E, X>(
    start: CommitView<K, V, C, P, O>,
    asked: CommitView<K, V, C, P, O>,
    request: CommitAction<K, V, C, P, E, X>,
    done_read: bool,
    commit_ts: u64,
    stamped: CommitView<K, V, C, P, O>,
    drain: CommitAction<K, V, C, P, E, X>,
    writes: Vec<(K, EntryValue<V>)>,
    drained: CommitView<K, V, C, P, O>,
    apply: CommitAction<K, V, C, P, E, X>,
    result: Result<(), X>,
    end: CommitView<K, V, C, P, O>,
    finish: CommitAction<K, V, C, P, E, X>,
)
    requires
        start.wf(),
        start.stage is Start,
        !start.in_task,
        !start.txn.discarded,
        commit_ts != 0,
        start.steps(CommitEvent::Counted { empty: false }, asked, request),
        asked.steps(
            CommitEvent::Stamped {
                done_read,
                outcome: CreateCommitTimestampResult::Timestamp(commit_ts),
            },
            stamped,
            drain,
        ),
        stamped.steps(CommitEvent::Drained { writes }, drained, apply),
        drained.steps(CommitEvent::Applied { result }, end, finish),
    ensures
        drain == (CommitAction::<K, V, C, P, E, X>::Drain {
            pending: start.txn.pending_writes->0,
        }),
        apply is Apply,
        apply->Apply_entries@ == batch(commit_ts, writes@, start.txn.duplicate_writes),
        finish == (CommitAction::<K, V, C, P, E, X>::Finish {
            commit_ts: Some(commit_ts),
            read_ts: if done_read {
                None
            } else {
                Some(start.txn.read_ts)
            },
            result: match result {
                Ok(()) => Ok(()),
                Err(e) => Err(WtmError::Commit(e)),
            },
        }),
        end.stage is Over,
        end.txn.discarded,
{
}

/// A commit with a task of its own hands the task the whole batch, the commit timestamp, and the
/// read timestamp unless the oracle released it, discards the transaction, and is over with that.
pub proof fn law_task_gets_the_batch<K, V, C, P, O, E, X>(
    start: CommitView<K, V, C, P, O>,
    asked: CommitView<K, V, C, P, O>,
    request: CommitAction<K, V, C, P, E, X>,
    done_read: bool,
    ts: u64,
    stamped: CommitView<K, V, C, P, O>,
    drain: CommitAction<K, V, C, P, E, X>,
    writes: Vec<(K, EntryValue<V>)>,
    end: CommitView<K, V, C, P, O>,
    spawn: CommitAction<K, V, C, P, E, X>,
)
    requires
        start.wf(),
        start.stage is Start,
        start.in_task,
        !start.txn.discarded,
        ts != 0,
        start.steps(CommitEvent::Counted { empty: false }, asked, request),
        asked.steps(
            CommitEvent::Stamped {
                done_read,
                outcome: CreateCommitTimestampResult::Timestamp(ts),
            },
            stamped,
            drain,
        ),
        stamped.steps(CommitEvent::Drained { writes }, end, spawn),
    ensures
        drain == (CommitAction::<K, V, C, P, E, X>::Drain {
            pending: start.txn.pending_writes->0,
        }),
        match spawn {
            CommitAction::Spawn { entries, commit_ts, read_ts } => {
                &&& entries@ == batch(ts, writes@, start.txn.duplicate_writes)
                &&& commit_ts == ts
                &&& read_ts == if done_read {
                    None
                } else {
                    Some(start.txn.read_ts)
                }
            },
            _ => false,
        },
        end.stage is Over,
        end.txn.discarded,
{
}

} // verus!
