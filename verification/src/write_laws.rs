//! What holds of every write, stated of the calls themselves: each law takes a call that returned,
//! with its arguments and its answer, and says how the transaction was before it and is after it.
use crate::error::TransactionError;
use crate::modify::{settle_insert, CountedWrite, PlannedWrite, RecordedWrite, ValidWrite};
use crate::sync::{Cm, Pwm};
use crate::types::{Entry, EntryData, EntryValue};
use crate::write::{AsyncWtm, WtmView};
use vstd::prelude::*;

verus! {

/// There is one answer that is `Ok`.
proof fn lemma_one_ok<E>(answer: Result<(), E>)
    requires
        answer is Ok,
    ensures
        answer == Ok::<(), E>(()),
{
    let unit: () = answer->Ok_0;
    assert(unit == ());
}

/// An open transaction that has its pending writes and room for one more count can be written to,
/// and so can a discarded one.
pub proof fn law_writes_can_be_called<K, V, C, P, O>(
    txn: &mut AsyncWtm<K, V, C, P, O>,
    key: K,
    value: V,
) where C: Cm<Key = K>, P: Pwm<Key = K, Value = V>
    requires
        old(txn)@.discarded || old(txn)@.pending_writes is Some,
        old(txn)@.count < u64::MAX,
    ensures
        call_requires(AsyncWtm::<K, V, C, P, O>::insert, (txn, key, value)),
        call_requires(AsyncWtm::<K, V, C, P, O>::remove, (txn, key)),
{
}

/// An insert is answered with `Discard` if and only if the transaction was discarded, and is never
/// answered with `Conflict`. Whatever it is answered, the transaction stays open or discarded, and
/// keeps its timestamps and its oracle. An insert that is not counted in is refused and changes
/// nothing.
pub proof fn law_insert_keeps<K, V, C, P, O>(
    txn: &mut AsyncWtm<K, V, C, P, O>,
    key: K,
    value: V,
    answer: Result<(), TransactionError<P::Error>>,
) where C: Cm<Key = K>, P: Pwm<Key = K, Value = V>
    requires
        call_ensures(AsyncWtm::<K, V, C, P, O>::insert, (txn, key, value), answer),
        old(txn)@.count < u64::MAX,
    ensures
        (answer matches Err(TransactionError::Discard)) <==> old(txn)@.discarded,
        !(answer matches Err(TransactionError::Conflict)),
        final(txn)@.read_ts == old(txn)@.read_ts,
        final(txn)@.orc == old(txn)@.orc,
        final(txn)@.discarded == old(txn)@.discarded,
        final(txn)@.done_read == old(txn)@.done_read,
        final(txn)@.count == old(txn)@.count || final(txn)@.count == old(txn)@.count + 1,
        final(txn)@.count == old(txn)@.count ==> answer is Err && final(txn)@ == old(txn)@,
{
}

/// An insert that is accepted, or counted in, or refused as too large was found valid by the
/// pending writes manager, as an entry with the key, the value and the read timestamp.
pub proof fn law_accepted_insert_is_valid<K, V, C, P, O>(
    txn: &mut AsyncWtm<K, V, C, P, O>,
    key: K,
    value: V,
    answer: Result<(), TransactionError<P::Error>>,
) where C: Cm<Key = K>, P: Pwm<Key = K, Value = V>
    requires
        call_ensures(AsyncWtm::<K, V, C, P, O>::insert, (txn, key, value), answer),
        answer is Ok || final(txn)@ != old(txn)@ || (answer matches Err(
            TransactionError::LargeTxn,
        )),
    ensures
        !old(txn)@.discarded,
        old(txn)@.pending_writes->0.validate_entry_gives(
            &Entry { version: old(txn)@.read_ts, data: EntryData::Insert { key, value } },
            Ok(()),
        ),
{
    let ent = Entry { version: old(txn)@.read_ts, data: EntryData::Insert { key, value } };
    assert forall|verdict: Result<(), P::Error>|
        verdict is Ok && #[trigger] old(txn)@.pending_writes->0.validate_entry_gives(
            &ent,
            verdict,
        ) implies old(txn)@.pending_writes->0.validate_entry_gives(&ent, Ok(())) by {
        lemma_one_ok(verdict);
    }
}

/// An insert into an open transaction whose pending writes manager can only find it invalid is
/// answered with the manager's error, and changes nothing.
pub proof fn law_invalid_insert_is_refused<K, V, C, P, O>(
    txn: &mut AsyncWtm<K, V, C, P, O>,
    key: K,
    value: V,
    answer: Result<(), TransactionError<P::Error>>,
) where C: Cm<Key = K>, P: Pwm<Key = K, Value = V>
    requires
        call_ensures(AsyncWtm::<K, V, C, P, O>::insert, (txn, key, value), answer),
        !old(txn)@.discarded,
        !old(txn)@.pending_writes->0.validate_entry_gives(
            &Entry { version: old(txn)@.read_ts, data: EntryData::Insert { key, value } },
            Ok(()),
        ),
    ensures
        answer matches Err(TransactionError::Pwm(e))
            && old(txn)@.pending_writes->0.validate_entry_gives(
            &Entry { version: old(txn)@.read_ts, data: EntryData::Insert { key, value } },
            Err(e),
        ),
        final(txn)@ == old(txn)@,
{
    let ent = Entry { version: old(txn)@.read_ts, data: EntryData::Insert { key, value } };
    assert forall|verdict: Result<(), P::Error>|
        verdict is Ok && #[trigger] old(txn)@.pending_writes->0.validate_entry_gives(
            &ent,
            verdict,
        ) implies old(txn)@.pending_writes->0.validate_entry_gives(&ent, Ok(())) by {
        lemma_one_ok(verdict);
    }
}

/// An insert that is refused with an error of the pending writes manager, but is not counted in, is
/// refused with the error that the manager found it invalid with.
pub proof fn law_uncounted_insert_was_invalid<K, V, C, P, O>(
    txn: &mut AsyncWtm<K, V, C, P, O>,
    key: K,
    value: V,
    error: P::Error,
) where C: Cm<Key = K>, P: Pwm<Key = K, Value = V>
    requires
        call_ensures(
            AsyncWtm::<K, V, C, P, O>::insert,
            (txn, key, value),
            Err(TransactionError::Pwm(error)),
        ),
        old(txn)@.count < u64::MAX,
        final(txn)@.count == old(txn)@.count,
    ensures
        old(txn)@.pending_writes->0.validate_entry_gives(
            &Entry { version: old(txn)@.read_ts, data: EntryData::Insert { key, value } },
            Err(error),
        ),
{
}

/// An insert is refused as too large only if one more write would reach the entry limit, or the
/// size so far and the estimated size of the entry together would reach the size limit.
pub proof fn law_large_insert_reaches_a_limit<K, V, C, P, O>(
    txn: &mut AsyncWtm<K, V, C, P, O>,
    key: K,
    value: V,
    answer: Result<(), TransactionError<P::Error>>,
) where C: Cm<Key = K>, P: Pwm<Key = K, Value = V>
    requires
        call_ensures(AsyncWtm::<K, V, C, P, O>::insert, (txn, key, value), answer),
        answer matches Err(TransactionError::LargeTxn),
    ensures
        final(txn)@ == old(txn)@,
        exists|size: u64, max_entries: u64, max_size: u64|
            {
                &&& #[trigger] old(txn)@.pending_writes->0.estimate_size_gives(
                    &Entry { version: old(txn)@.read_ts, data: EntryData::Insert { key, value } },
                    size,
                )
                &&& #[trigger] old(txn)@.pending_writes->0.max_batch_entries_gives(max_entries)
                &&& #[trigger] old(txn)@.pending_writes->0.max_batch_size_gives(max_size)
                &&& old(txn)@.count + 1 >= max_entries || old(txn)@.size + size >= max_size
            },
{
}

/// An insert that the pending writes manager can only find valid, but that reaches a limit whatever
/// the manager estimates and allows, is refused as too large and changes nothing.
pub proof fn law_large_insert_is_refused<K, V, C, P, O>(
    txn: &mut AsyncWtm<K, V, C, P, O>,
    key: K,
    value: V,
    answer: Result<(), TransactionError<P::Error>>,
) where C: Cm<Key = K>, P: Pwm<Key = K, Value = V>
    requires
        call_ensures(AsyncWtm::<K, V, C, P, O>::insert, (txn, key, value), answer),
        !old(txn)@.discarded,
        forall|verdict: Result<(), P::Error>|
            #[trigger] old(txn)@.pending_writes->0.validate_entry_gives(
                &Entry { version: old(txn)@.read_ts, data: EntryData::Insert { key, value } },
                verdict,
            ) ==> verdict is Ok,
        forall|size: u64, max_entries: u64, max_size: u64|
            {
                &&& #[trigger] old(txn)@.pending_writes->0.estimate_size_gives(
                    &Entry { version: old(txn)@.read_ts, data: EntryData::Insert { key, value } },
                    size,
                )
                &&& #[trigger] old(txn)@.pending_writes->0.max_batch_entries_gives(max_entries)
                &&& #[trigger] old(txn)@.pending_writes->0.max_batch_size_gives(max_size)
            } ==> old(txn)@.count + 1 >= max_entries || old(txn)@.size + size >= max_size,
    ensures
        answer matches Err(TransactionError::LargeTxn),
        final(txn)@ == old(txn)@,
{
}

/// An insert that the pending writes manager can only find valid, and that stays below the limits
/// whatever the manager estimates and allows, is counted in. It is not refused, unless with an
/// error of the manager.
pub proof fn law_insert_with_room_is_counted<K, V, C, P, O>(
    txn: &mut AsyncWtm<K, V, C, P, O>,
    key: K,
    value: V,
    answer: Result<(), TransactionError<P::Error>>,
) where C: Cm<Key = K>, P: Pwm<Key = K, Value = V>
    requires
        call_ensures(AsyncWtm::<K, V, C, P, O>::insert, (txn, key, value), answer),
        !old(txn)@.discarded,
        forall|verdict: Result<(), P::Error>|
            #[trigger] old(txn)@.pending_writes->0.validate_entry_gives(
                &Entry { version: old(txn)@.read_ts, data: EntryData::Insert { key, value } },
                verdict,
            ) ==> verdict is Ok,
        forall|size: u64, max_entries: u64, max_size: u64|
            {
                &&& #[trigger] old(txn)@.pending_writes->0.estimate_size_gives(
                    &Entry { version: old(txn)@.read_ts, data: EntryData::Insert { key, value } },
                    size,
                )
                &&& #[trigger] old(txn)@.pending_writes->0.max_batch_entries_gives(max_entries)
                &&& #[trigger] old(txn)@.pending_writes->0.max_batch_size_gives(max_size)
            } ==> old(txn)@.count + 1 < max_entries && old(txn)@.size + size < max_size,
    ensures
        final(txn)@.count == old(txn)@.count + 1,
        answer matches Err(e) ==> e is Pwm,
{
}

/// An insert that is counted in adds its estimated size, stays below both limits, and is recorded
/// in the conflict manager as a write of its key.
pub proof fn law_counted_insert_is_recorded<K, V, C, P, O>(
    txn: &mut AsyncWtm<K, V, C, P, O>,
    key: K,
    value: V,
    answer: Result<(), TransactionError<P::Error>>,
) where C: Cm<Key = K>, P: Pwm<Key = K, Value = V>
    requires
        call_ensures(AsyncWtm::<K, V, C, P, O>::insert, (txn, key, value), answer),
        old(txn)@.count < u64::MAX,
        final(txn)@.count != old(txn)@.count,
    ensures
        exists|size: u64, max_entries: u64, max_size: u64|
            {
                &&& #[trigger] old(txn)@.pending_writes->0.estimate_size_gives(
                    &Entry { version: old(txn)@.read_ts, data: EntryData::Insert { key, value } },
                    size,
                )
                &&& #[trigger] old(txn)@.pending_writes->0.max_batch_entries_gives(max_entries)
                &&& #[trigger] old(txn)@.pending_writes->0.max_batch_size_gives(max_size)
                &&& final(txn)@.size == old(txn)@.size + size
                &&& final(txn)@.size < max_size
                &&& final(txn)@.count < max_entries
            },
        match (old(txn)@.conflict_manager, final(txn)@.conflict_manager) {
            (Some(cm), Some(cm2)) => cm.mark_conflict_makes(&key, &cm2),
            (None, None) => true,
            _ => false,
        },
{
}

/// An insert that is counted in takes the write of its key out of the pending writes, and puts its
/// own there, with the key, the value and the read timestamp. A write that it took out is kept as a
/// duplicate, as it was, if it has another version than the read timestamp, and is gone otherwise.
/// Whichever of the two steps fails first gives the answer.
pub proof fn law_counted_insert_is_stored<K, V, C, P, O>(
    txn: &mut AsyncWtm<K, V, C, P, O>,
    key: K,
    value: V,
    answer: Result<(), TransactionError<P::Error>>,
) where C: Cm<Key = K>, P: Pwm<Key = K, Value = V>
    requires
        call_ensures(AsyncWtm::<K, V, C, P, O>::insert, (txn, key, value), answer),
        old(txn)@.count < u64::MAX,
        final(txn)@.count != old(txn)@.count,
    ensures
        final(txn)@.pending_writes is Some,
        exists|cleared: P, removed: Result<Option<(K, EntryValue<V>)>, P::Error>|
            {
                &&& #[trigger] old(txn)@.pending_writes->0.remove_entry_makes(
                    &key,
                    &cleared,
                    removed,
                )
                &&& match removed {
                    Err(e) => {
                        &&& answer == Err::<(), _>(TransactionError::Pwm(e))
                        &&& final(txn)@.pending_writes == Some(cleared)
                    },
                    Ok(_) => exists|filled: P, inserted: Result<(), P::Error>|
                        {
                            &&& #[trigger] cleared.insert_makes(
                                key,
                                EntryValue { version: old(txn)@.read_ts, value: Some(value) },
                                &filled,
                                inserted,
                            )
                            &&& final(txn)@.pending_writes == Some(filled)
                            &&& answer is Ok <==> inserted is Ok
                            &&& inserted matches Err(e) ==> answer == Err::<(), _>(
                                TransactionError::Pwm(e),
                            )
                        },
                }
                &&& match removed {
                    Ok(Some((key2, value2))) if value2.version != old(txn)@.read_ts => {
                        final(txn)@.duplicate_writes == old(txn)@.duplicate_writes.push(
                            Entry {
                                version: value2.version,
                                data: match value2.value {
                                    Some(value) => EntryData::Insert { key: key2, value },
                                    None => EntryData::Remove(key2),
                                },
                            },
                        )
                    },
                    _ => final(txn)@.duplicate_writes == old(txn)@.duplicate_writes,
                }
            },
{
}

/// An insert into an open transaction succeeds if its pending writes manager can only find it
/// valid, can only estimate and allow what leaves room for it, and cannot fail to remove or to
/// insert.
pub proof fn law_insert_succeeds<K, V, C, P, O>(
    txn: &mut AsyncWtm<K, V, C, P, O>,
    key: K,
    value: V,
    answer: Result<(), TransactionError<P::Error>>,
) where C: Cm<Key = K>, P: Pwm<Key = K, Value = V>
    requires
        call_ensures(AsyncWtm::<K, V, C, P, O>::insert, (txn, key, value), answer),
        !old(txn)@.discarded,
        forall|verdict: Result<(), P::Error>|
            #[trigger] old(txn)@.pending_writes->0.validate_entry_gives(
                &Entry { version: old(txn)@.read_ts, data: EntryData::Insert { key, value } },
                verdict,
            ) ==> verdict is Ok,
        forall|size: u64, max_entries: u64, max_size: u64|
            {
                &&& #[trigger] old(txn)@.pending_writes->0.estimate_size_gives(
                    &Entry { version: old(txn)@.read_ts, data: EntryData::Insert { key, value } },
                    size,
                )
                &&& #[trigger] old(txn)@.pending_writes->0.max_batch_entries_gives(max_entries)
                &&& #[trigger] old(txn)@.pending_writes->0.max_batch_size_gives(max_size)
            } ==> old(txn)@.count + 1 < max_entries && old(txn)@.size + size < max_size,
        forall|cleared: P, removed: Result<Option<(K, EntryValue<V>)>, P::Error>|
            #[trigger] old(txn)@.pending_writes->0.remove_entry_makes(&key, &cleared, removed)
                ==> removed is Ok,
        forall|cleared: P, filled: P, inserted: Result<(), P::Error>|
            #[trigger] cleared.insert_makes(
                key,
                EntryValue { version: old(txn)@.read_ts, value: Some(value) },
                &filled,
                inserted,
            ) ==> inserted is Ok,
    ensures
        answer is Ok,
        final(txn)@.count == old(txn)@.count + 1,
{
}

/// A remove is answered with `Discard` if and only if the transaction was discarded, and is never
/// answered with `Conflict`. Whatever it is answered, the transaction stays open or discarded, and
/// keeps its timestamps and its oracle. A remove that is not counted in is refused and changes
/// nothing.
pub proof fn law_remove_keeps<K, V, C, P, O>(
    txn: &mut AsyncWtm<K, V, C, P, O>,
    key: K,
    answer: Result<(), TransactionError<P::Error>>,
) where C: Cm<Key = K>, P: Pwm<Key = K, Value = V>
    requires
        call_ensures(AsyncWtm::<K, V, C, P, O>::remove, (txn, key), answer),
        old(txn)@.count < u64::MAX,
    ensures
        (answer matches Err(TransactionError::Discard)) <==> old(txn)@.discarded,
        !(answer matches Err(TransactionError::Conflict)),
        final(txn)@.read_ts == old(txn)@.read_ts,
        final(txn)@.orc == old(txn)@.orc,
        final(txn)@.discarded == old(txn)@.discarded,
        final(txn)@.done_read == old(txn)@.done_read,
        final(txn)@.count == old(txn)@.count || final(txn)@.count == old(txn)@.count + 1,
        final(txn)@.count == old(txn)@.count ==> answer is Err && final(txn)@ == old(txn)@,
{
}

/// A remove that is accepted, or counted in, or refused as too large was found valid by the pending
/// writes manager, as an entry with the key and the read timestamp.
pub proof fn law_accepted_remove_is_valid<K, V, C, P, O>(
    txn: &mut AsyncWtm<K, V, C, P, O>,
    key: K,
    answer: Result<(), TransactionError<P::Error>>,
) where C: Cm<Key = K>, P: Pwm<Key = K, Value = V>
    requires
        call_ensures(AsyncWtm::<K, V, C, P, O>::remove, (txn, key), answer),
        answer is Ok || final(txn)@ != old(txn)@ || (answer matches Err(
            TransactionError::LargeTxn,
        )),
    ensures
        !old(txn)@.discarded,
        old(txn)@.pending_writes->0.validate_entry_gives(
            &Entry { version: old(txn)@.read_ts, data: EntryData::Remove(key) },
            Ok(()),
        ),
{
    let ent = Entry { version: old(txn)@.read_ts, data: EntryData::Remove(key) };
    assert forall|verdict: Result<(), P::Error>|
        verdict is Ok && #[trigger] old(txn)@.pending_writes->0.validate_entry_gives(
            &ent,
            verdict,
        ) implies old(txn)@.pending_writes->0.validate_entry_gives(&ent, Ok(())) by {
        lemma_one_ok(verdict);
    }
}

/// A remove from an open transaction whose pending writes manager can only find it invalid is
/// answered with the manager's error, and changes nothing.
pub proof fn law_invalid_remove_is_refused<K, V, C, P, O>(
    txn: &mut AsyncWtm<K, V, C, P, O>,
    key: K,
    answer: Result<(), TransactionError<P::Error>>,
) where C: Cm<Key = K>, P: Pwm<Key = K, Value = V>
    requires
        call_ensures(AsyncWtm::<K, V, C, P, O>::remove, (txn, key), answer),
        !old(txn)@.discarded,
        !old(txn)@.pending_writes->0.validate_entry_gives(
            &Entry { version: old(txn)@.read_ts, data: EntryData::Remove(key) },
            Ok(()),
        ),
    ensures
        answer matches Err(TransactionError::Pwm(e))
            && old(txn)@.pending_writes->0.validate_entry_gives(
            &Entry { version: old(txn)@.read_ts, data: EntryData::Remove(key) },
            Err(e),
        ),
        final(txn)@ == old(txn)@,
{
    let ent = Entry { version: old(txn)@.read_ts, data: EntryData::Remove(key) };
    assert forall|verdict: Result<(), P::Error>|
        verdict is Ok && #[trigger] old(txn)@.pending_writes->0.validate_entry_gives(
            &ent,
            verdict,
        ) implies old(txn)@.pending_writes->0.validate_entry_gives(&ent, Ok(())) by {
        lemma_one_ok(verdict);
    }
}

/// A remove that is refused with an error of the pending writes manager, but is not counted in, is
/// refused with the error that the manager found it invalid with.
pub proof fn law_uncounted_remove_was_invalid<K, V, C, P, O>(
    txn: &mut AsyncWtm<K, V, C, P, O>,
    key: K,
    error: P::Error,
) where C: Cm<Key = K>, P: Pwm<Key = K, Value = V>
    requires
        call_ensures(
            AsyncWtm::<K, V, C, P, O>::remove,
            (txn, key),
            Err(TransactionError::Pwm(error)),
        ),
        old(txn)@.count < u64::MAX,
        final(txn)@.count == old(txn)@.count,
    ensures
        old(txn)@.pending_writes->0.validate_entry_gives(
            &Entry { version: old(txn)@.read_ts, data: EntryData::Remove(key) },
            Err(error),
        ),
{
}

/// A remove is refused as too large only if one more write would reach the entry limit, or the size
/// so far and the estimated size of the entry together would reach the size limit.
pub proof fn law_large_remove_reaches_a_limit<K, V, C, P, O>(
    txn: &mut AsyncWtm<K, V, C, P, O>,
    key: K,
    answer: Result<(), TransactionError<P::Error>>,
) where C: Cm<Key = K>, P: Pwm<Key = K, Value = V>
    requires
        call_ensures(AsyncWtm::<K, V, C, P, O>::remove, (txn, key), answer),
        answer matches Err(TransactionError::LargeTxn),
    ensures
        final(txn)@ == old(txn)@,
        exists|size: u64, max_entries: u64, max_size: u64|
            {
                &&& #[trigger] old(txn)@.pending_writes->0.estimate_size_gives(
                    &Entry { version: old(txn)@.read_ts, data: EntryData::Remove(key) },
                    size,
                )
                &&& #[trigger] old(txn)@.pending_writes->0.max_batch_entries_gives(max_entries)
                &&& #[trigger] old(txn)@.pending_writes->0.max_batch_size_gives(max_size)
                &&& old(txn)@.count + 1 >= max_entries || old(txn)@.size + size >= max_size
            },
{
}

/// A remove that the pending writes manager can only find valid, but that reaches a limit whatever
/// the manager estimates and allows, is refused as too large and changes nothing.
pub proof fn law_large_remove_is_refused<K, V, C, P, O>(
    txn: &mut AsyncWtm<K, V, C, P, O>,
    key: K,
    answer: Result<(), TransactionError<P::Error>>,
) where C: Cm<Key = K>, P: Pwm<Key = K, Value = V>
    requires
        call_ensures(AsyncWtm::<K, V, C, P, O>::remove, (txn, key), answer),
        !old(txn)@.discarded,
        forall|verdict: Result<(), P::Error>|
            #[trigger] old(txn)@.pending_writes->0.validate_entry_gives(
                &Entry { version: old(txn)@.read_ts, data: EntryData::Remove(key) },
                verdict,
            ) ==> verdict is Ok,
        forall|size: u64, max_entries: u64, max_size: u64|
            {
                &&& #[trigger] old(txn)@.pending_writes->0.estimate_size_gives(
                    &Entry { version: old(txn)@.read_ts, data: EntryData::Remove(key) },
                    size,
                )
                &&& #[trigger] old(txn)@.pending_writes->0.max_batch_entries_gives(max_entries)
                &&& #[trigger] old(txn)@.pending_writes->0.max_batch_size_gives(max_size)
            } ==> old(txn)@.count + 1 >= max_entries || old(txn)@.size + size >= max_size,
    ensures
        answer matches Err(TransactionError::LargeTxn),
        final(txn)@ == old(txn)@,
{
}

/// A remove that the pending writes manager can only find valid, and that stays below the limits
/// whatever the manager estimates and allows, is counted in. It is not refused, unless with an
/// error of the manager.
pub proof fn law_remove_with_room_is_counted<K, V, C, P, O>(
    txn: &mut AsyncWtm<K, V, C, P, O>,
    key: K,
    answer: Result<(), TransactionError<P::Error>>,
) where C: Cm<Key = K>, P: Pwm<Key = K, Value = V>
    requires
        call_ensures(AsyncWtm::<K, V, C, P, O>::remove, (txn, key), answer),
        !old(txn)@.discarded,
        forall|verdict: Result<(), P::Error>|
            #[trigger] old(txn)@.pending_writes->0.validate_entry_gives(
                &Entry { version: old(txn)@.read_ts, data: EntryData::Remove(key) },
                verdict,
            ) ==> verdict is Ok,
        forall|size: u64, max_entries: u64, max_size: u64|
            {
                &&& #[trigger] old(txn)@.pending_writes->0.estimate_size_gives(
                    &Entry { version: old(txn)@.read_ts, data: EntryData::Remove(key) },
                    size,
                )
                &&& #[trigger] old(txn)@.pending_writes->0.max_batch_entries_gives(max_entries)
                &&& #[trigger] old(txn)@.pending_writes->0.max_batch_size_gives(max_size)
            } ==> old(txn)@.count + 1 < max_entries && old(txn)@.size + size < max_size,
    ensures
        final(txn)@.count == old(txn)@.count + 1,
        answer matches Err(e) ==> e is Pwm,
{
}

/// A remove that is counted in adds its estimated size, stays below both limits, and is recorded in
/// the conflict manager as a write of its key.
pub proof fn law_counted_remove_is_recorded<K, V, C, P, O>(
    txn: &mut AsyncWtm<K, V, C, P, O>,
    key: K,
    answer: Result<(), TransactionError<P::Error>>,
) where C: Cm<Key = K>, P: Pwm<Key = K, Value = V>
    requires
        call_ensures(AsyncWtm::<K, V, C, P, O>::remove, (txn, key), answer),
        old(txn)@.count < u64::MAX,
        final(txn)@.count != old(txn)@.count,
    ensures
        exists|size: u64, max_entries: u64, max_size: u64|
            {
                &&& #[trigger] old(txn)@.pending_writes->0.estimate_size_gives(
                    &Entry { version: old(txn)@.read_ts, data: EntryData::Remove(key) },
                    size,
                )
                &&& #[trigger] old(txn)@.pending_writes->0.max_batch_entries_gives(max_entries)
                &&& #[trigger] old(txn)@.pending_writes->0.max_batch_size_gives(max_size)
                &&& final(txn)@.size == old(txn)@.size + size
                &&& final(txn)@.size < max_size
                &&& final(txn)@.count < max_entries
            },
        match (old(txn)@.conflict_manager, final(txn)@.conflict_manager) {
            (Some(cm), Some(cm2)) => cm.mark_conflict_makes(&key, &cm2),
            (None, None) => true,
            _ => false,
        },
{
}

/// A remove that is counted in takes the write of its key out of the pending writes, and puts its
/// own there, with the key and the read timestamp. A write that it took out is kept as a duplicate,
/// as it was, if it has another version than the read timestamp, and is gone otherwise. Whichever
/// of the two steps fails first gives the answer.
pub proof fn law_counted_remove_is_stored<K, V, C, P, O>(
    txn: &mut AsyncWtm<K, V, C, P, O>,
    key: K,
    answer: Result<(), TransactionError<P::Error>>,
) where C: Cm<Key = K>, P: Pwm<Key = K, Value = V>
    requires
        call_ensures(AsyncWtm::<K, V, C, P, O>::remove, (txn, key), answer),
        old(txn)@.count < u64::MAX,
        final(txn)@.count != old(txn)@.count,
    ensures
        final(txn)@.pending_writes is Some,
        exists|cleared: P, removed: Result<Option<(K, EntryValue<V>)>, P::Error>|
            {
                &&& #[trigger] old(txn)@.pending_writes->0.remove_entry_makes(
                    &key,
                    &cleared,
                    removed,
                )
                &&& match removed {
                    Err(e) => {
                        &&& answer == Err::<(), _>(TransactionError::Pwm(e))
                        &&& final(txn)@.pending_writes == Some(cleared)
                    },
                    Ok(_) => exists|filled: P, inserted: Result<(), P::Error>|
                        {
                            &&& #[trigger] cleared.insert_makes(
                                key,
                                EntryValue { version: old(txn)@.read_ts, value: None },
                                &filled,
                                inserted,
                            )
                            &&& final(txn)@.pending_writes == Some(filled)
                            &&& answer is Ok <==> inserted is Ok
                            &&& inserted matches Err(e) ==> answer == Err::<(), _>(
                                TransactionError::Pwm(e),
                            )
                        },
                }
                &&& match removed {
                    Ok(Some((key2, value2))) if value2.version != old(txn)@.read_ts => {
                        final(txn)@.duplicate_writes == old(txn)@.duplicate_writes.push(
                            Entry {
                                version: value2.version,
                                data: match value2.value {
                                    Some(value) => EntryData::Insert { key: key2, value },
                                    None => EntryData::Remove(key2),
                                },
                            },
                        )
                    },
                    _ => final(txn)@.duplicate_writes == old(txn)@.duplicate_writes,
                }
            },
{
}

/// A remove from an open transaction succeeds if its pending writes manager can only find it valid,
/// can only estimate and allow what leaves room for it, and cannot fail to remove or to insert.
pub proof fn law_remove_succeeds<K, V, C, P, O>(
    txn: &mut AsyncWtm<K, V, C, P, O>,
    key: K,
    answer: Result<(), TransactionError<P::Error>>,
) where C: Cm<Key = K>, P: Pwm<Key = K, Value = V>
    requires
        call_ensures(AsyncWtm::<K, V, C, P, O>::remove, (txn, key), answer),
        !old(txn)@.discarded,
        forall|verdict: Result<(), P::Error>|
            #[trigger] old(txn)@.pending_writes->0.validate_entry_gives(
                &Entry { version: old(txn)@.read_ts, data: EntryData::Remove(key) },
                verdict,
            ) ==> verdict is Ok,
        forall|size: u64, max_entries: u64, max_size: u64|
            {
                &&& #[trigger] old(txn)@.pending_writes->0.estimate_size_gives(
                    &Entry { version: old(txn)@.read_ts, data: EntryData::Remove(key) },
                    size,
                )
                &&& #[trigger] old(txn)@.pending_writes->0.max_batch_entries_gives(max_entries)
                &&& #[trigger] old(txn)@.pending_writes->0.max_batch_size_gives(max_size)
            } ==> old(txn)@.count + 1 < max_entries && old(txn)@.size + size < max_size,
        forall|cleared: P, removed: Result<Option<(K, EntryValue<V>)>, P::Error>|
            #[trigger] old(txn)@.pending_writes->0.remove_entry_makes(&key, &cleared, removed)
                ==> removed is Ok,
        forall|cleared: P, filled: P, inserted: Result<(), P::Error>|
            #[trigger] cleared.insert_makes(
                key,
                EntryValue { version: old(txn)@.read_ts, value: None },
                &filled,
                inserted,
            ) ==> inserted is Ok,
    ensures
        answer is Ok,
        final(txn)@.count == old(txn)@.count + 1,
{
}

/// The entries that an insert and a remove ask for carry the key, the value of the one, and the
/// read timestamp.
pub proof fn law_entries_asked_for<K, V, C, P, O>(
    txn: AsyncWtm<K, V, C, P, O>,
    key: K,
    value: V,
    inserting: Entry<K, V>,
    removing: Entry<K, V>,
)
    requires
        call_ensures(AsyncWtm::<K, V, C, P, O>::insertion, (&txn, key, value), inserting),
        call_ensures(AsyncWtm::<K, V, C, P, O>::removal, (&txn, key), removing),
    ensures
        inserting.version == txn@.read_ts,
        inserting.data == (EntryData::Insert { key, value }),
        removing.version == txn@.read_ts,
        removing.data == EntryData::<K, V>::Remove(key),
{
}

/// A write is planned if and only if the transaction is open, and as the entry that was asked for.
pub proof fn law_plan_write<K, V, C, P, O, E>(
    txn: AsyncWtm<K, V, C, P, O>,
    ent: Entry<K, V>,
    planned: Result<PlannedWrite<K, V>, TransactionError<E>>,
)
    requires
        call_ensures(AsyncWtm::<K, V, C, P, O>::plan_write::<E>, (&txn, ent), planned),
    ensures
        call_requires(AsyncWtm::<K, V, C, P, O>::plan_write::<E>, (&txn, ent)),
        txn@.discarded ==> (planned matches Err(TransactionError::Discard)),
        !txn@.discarded ==> planned is Ok && planned->Ok_0@ == ent,
{
}

/// A planned write goes on if and only if it was found valid, with its entry as it was; otherwise
/// it ends with the error that it was found invalid with.
pub proof fn law_validated<K, V, E>(
    planned: PlannedWrite<K, V>,
    verdict: Result<(), E>,
    valid: Result<ValidWrite<K, V>, TransactionError<E>>,
)
    requires
        call_ensures(PlannedWrite::<K, V>::validated::<E>, (planned, verdict), valid),
    ensures
        call_requires(PlannedWrite::<K, V>::validated::<E>, (planned, verdict)),
        verdict is Ok ==> valid is Ok && valid->Ok_0@ == planned@,
        verdict is Err ==> valid == Err::<ValidWrite<K, V>, _>(
            TransactionError::Pwm(verdict->Err_0),
        ),
{
}

/// A valid write is counted in if and only if one more write stays below the entry limit and the
/// size so far with its own stays below the size limit. Then the count grows by one and the size by
/// its own, and nothing else changes. Otherwise it is refused as too large, and nothing changes.
pub proof fn law_counted<K, V, C, P, O, E>(
    valid: ValidWrite<K, V>,
    txn: &mut AsyncWtm<K, V, C, P, O>,
    size: u64,
    max_entries: u64,
    max_size: u64,
    counted: Result<CountedWrite<K, V>, TransactionError<E>>,
)
    requires
        call_ensures(
            ValidWrite::<K, V>::counted::<C, P, O, E>,
            (valid, txn, size, max_entries, max_size),
            counted,
        ),
        old(txn)@.count < u64::MAX,
    ensures
        old(txn)@.discarded || old(txn)@.pending_writes is Some ==> call_requires(
            ValidWrite::<K, V>::counted::<C, P, O, E>,
            (valid, txn, size, max_entries, max_size),
        ),
        counted is Ok <==> old(txn)@.count + 1 < max_entries && old(txn)@.size + size < max_size,
        counted matches Ok(write) ==> {
            &&& write@ == valid@
            &&& final(txn)@.count == old(txn)@.count + 1
            &&& final(txn)@.size == old(txn)@.size + size
            &&& final(txn)@ == (WtmView {
                count: final(txn)@.count,
                size: final(txn)@.size,
                ..old(txn)@
            })
        },
        counted matches Err(e) ==> e is LargeTxn && final(txn)@ == old(txn)@,
{
}

/// A write keeps its entry through its stages, and asks for the key of the entry.
pub proof fn law_stages_keep_the_entry<K, V>(
    planned: PlannedWrite<K, V>,
    to_validate: &Entry<K, V>,
    valid: ValidWrite<K, V>,
    to_estimate: &Entry<K, V>,
    counted: CountedWrite<K, V>,
    to_record: &K,
    recorded: RecordedWrite<K, V>,
    to_clear: &K,
)
    requires
        call_ensures(PlannedWrite::<K, V>::entry, (&planned,), to_validate),
        call_ensures(ValidWrite::<K, V>::entry, (&valid,), to_estimate),
        call_ensures(CountedWrite::<K, V>::key, (&counted,), to_record),
        call_ensures(CountedWrite::<K, V>::recorded, (counted,), recorded),
        call_ensures(RecordedWrite::<K, V>::key, (&recorded,), to_clear),
    ensures
        *to_validate == planned@,
        *to_estimate == valid@,
        recorded@ == counted@,
        counted@.data matches EntryData::Insert { key, .. } ==> *to_record == key && *to_clear
            == key,
        counted@.data matches EntryData::Remove(key) ==> *to_record == key && *to_clear == key,
{
}

/// After the write of its key was taken out, a write hands out the key and the value to insert, at
/// the version of its entry. What was taken out is kept as a duplicate, as it was, if it has
/// another version, and is gone otherwise. If it could not be taken out, the write ends with that
/// error and nothing changes.
pub proof fn law_cleared<K, V, C, P, O, E>(
    write: RecordedWrite<K, V>,
    txn: &mut AsyncWtm<K, V, C, P, O>,
    removed: Result<Option<(K, EntryValue<V>)>, E>,
    parts: Result<(K, EntryValue<V>), TransactionError<E>>,
)
    requires
        call_ensures(
            RecordedWrite::<K, V>::cleared::<C, P, O, E>,
            (write, txn, removed),
            parts,
        ),
    ensures
        call_requires(RecordedWrite::<K, V>::cleared::<C, P, O, E>, (write, txn, removed)),
        removed matches Err(e) ==> {
            &&& parts == Err::<(K, EntryValue<V>), _>(TransactionError::Pwm(e))
            &&& final(txn)@ == old(txn)@
        },
        removed is Ok ==> {
            &&& parts is Ok
            &&& parts->Ok_0.1.version == write@.version
            &&& match write@.data {
                EntryData::Insert { key, value } => {
                    parts->Ok_0.0 == key && parts->Ok_0.1.value == Some(value)
                },
                EntryData::Remove(key) => parts->Ok_0.0 == key && parts->Ok_0.1.value is None,
            }
            &&& final(txn)@ == (WtmView {
                duplicate_writes: final(txn)@.duplicate_writes,
                ..old(txn)@
            })
        },
        removed matches Ok(None) ==> final(txn)@ == old(txn)@,
        removed matches Ok(Some((key, value))) ==> if value.version == write@.version {
            final(txn)@ == old(txn)@
        } else {
            final(txn)@.duplicate_writes == old(txn)@.duplicate_writes.push(
                Entry {
                    version: value.version,
                    data: match value.value {
                        Some(value) => EntryData::Insert { key, value },
                        None => EntryData::Remove(key),
                    },
                },
            )
        },
{
}

/// A write succeeds if and only if the pending writes manager inserted it, and otherwise ends with
/// the manager's error.
pub proof fn law_settle_insert<E>(
    inserted: Result<(), E>,
    answer: Result<(), TransactionError<E>>,
)
    requires
        call_ensures(settle_insert::<E>, (inserted,), answer),
    ensures
        call_requires(settle_insert::<E>, (inserted,)),
        answer is Ok <==> inserted is Ok,
        inserted matches Err(e) ==> answer == Err::<(), _>(TransactionError::Pwm(e)),
{
}

} // verus!
