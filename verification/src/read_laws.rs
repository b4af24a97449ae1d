//! What holds of every read and of what is recorded of it, stated of the calls themselves.
use crate::error::TransactionError;
use crate::sync::{Cm, CmComparable, CmEquivalent, Pwm, PwmComparable, PwmEquivalent};
use crate::types::{EntryDataRef, EntryRef, EntryValue};
use crate::write::{settle_contains, settle_get, AsyncWtm, Lookup, Marker, WtmView};
use core::borrow::Borrow;
use core::hash::Hash;
use vstd::prelude::*;

verus! {

/// A transaction starts open and empty, with what it was made with, and can be used.
pub proof fn law_new_transaction_is_open<K, V, C, P, O>(
    read_ts: u64,
    orc: O,
    conflict_manager: Option<C>,
    pending_writes: P,
    txn: AsyncWtm<K, V, C, P, O>,
)
    requires
        call_ensures(
            AsyncWtm::<K, V, C, P, O>::new,
            (read_ts, orc, conflict_manager, pending_writes),
            txn,
        ),
    ensures
        txn@.read_ts == read_ts,
        txn@.orc == orc,
        txn@.conflict_manager == conflict_manager,
        txn@.pending_writes == Some(pending_writes),
        txn@.size == 0,
        txn@.count == 0,
        txn@.duplicate_writes.len() == 0,
        !txn@.discarded,
        !txn@.done_read,
{
}

/// The version of a transaction is its read timestamp, and its oracle is the one it was made with.
pub proof fn law_version_is_the_read_timestamp<K, V, C, P, O>(
    txn: AsyncWtm<K, V, C, P, O>,
    version: u64,
    orc: &O,
    discarded: bool,
)
    requires
        call_ensures(AsyncWtm::<K, V, C, P, O>::version, (&txn,), version),
        call_ensures(AsyncWtm::<K, V, C, P, O>::orc, (&txn,), orc),
        call_ensures(AsyncWtm::<K, V, C, P, O>::is_discard, (&txn,), discarded),
    ensures
        version == txn@.read_ts,
        *orc == txn@.orc,
        discarded == txn@.discarded,
{
}

/// The managers of a transaction are to be had while it is open and has them. Otherwise the answer
/// is `Discard`.
pub proof fn law_managers_while_open<K, V, C, P, O, E>(
    txn: AsyncWtm<K, V, C, P, O>,
    pwm: Result<&P, TransactionError<E>>,
    cm: Result<&C, TransactionError<E>>,
)
    requires
        call_ensures(AsyncWtm::<K, V, C, P, O>::pwm::<E>, (&txn,), pwm),
        call_ensures(AsyncWtm::<K, V, C, P, O>::cm::<E>, (&txn,), cm),
    ensures
        !txn@.discarded && txn@.pending_writes is Some ==> pwm is Ok && *pwm->Ok_0
            == txn@.pending_writes->0,
        txn@.discarded || txn@.pending_writes is None ==> (pwm matches Err(
            TransactionError::Discard,
        )),
        !txn@.discarded && txn@.conflict_manager is Some ==> cm is Ok && *cm->Ok_0
            == txn@.conflict_manager->0,
        txn@.discarded || txn@.conflict_manager is None ==> (cm matches Err(
            TransactionError::Discard,
        )),
{
}

/// A marker of an open transaction writes to its conflict manager, if it has one, and to nothing
/// else. A discarded transaction gives none.
pub proof fn law_marker<'a, K, V, C, P, O, E>(
    txn: &'a mut AsyncWtm<K, V, C, P, O>,
    marker: Result<Option<Marker<'a, C>>, TransactionError<E>>,
)
    requires
        call_ensures(AsyncWtm::<K, V, C, P, O>::marker::<E>, (txn,), marker),
    ensures
        old(txn)@.discarded ==> (marker matches Err(TransactionError::Discard)),
        !old(txn)@.discarded ==> marker is Ok && (marker->Ok_0 is Some
            <==> old(txn)@.conflict_manager is Some),
        marker matches Ok(Some(m)) ==> {
            &&& *m.marker == old(txn)@.conflict_manager->0
            &&& final(txn)@ == (WtmView {
                conflict_manager: Some(*final(m.marker)),
                ..old(txn)@
            })
        },
        !(marker matches Ok(Some(_))) ==> final(txn)@ == old(txn)@,
{
}

/// A marker that is handed out with the pending writes manager writes to the conflict manager, if
/// there is one, and to nothing else. A discarded transaction gives neither.
pub proof fn law_marker_with_pm<'a, K, V, C, P, O, E>(
    txn: &'a mut AsyncWtm<K, V, C, P, O>,
    parts: Result<(Option<Marker<'a, C>>, &'a P), TransactionError<E>>,
)
    requires
        call_ensures(AsyncWtm::<K, V, C, P, O>::marker_with_pm::<E>, (txn,), parts),
    ensures
        old(txn)@.discarded ==> (parts matches Err(TransactionError::Discard)),
        !old(txn)@.discarded ==> {
            &&& parts is Ok
            &&& parts->Ok_0.0 is Some <==> old(txn)@.conflict_manager is Some
            &&& old(txn)@.pending_writes == Some(*parts->Ok_0.1)
        },
        parts matches Ok((Some(m), _)) ==> {
            &&& *m.marker == old(txn)@.conflict_manager->0
            &&& final(txn)@ == (WtmView {
                conflict_manager: Some(*final(m.marker)),
                ..old(txn)@
            })
        },
        !(parts matches Ok((Some(_), _))) ==> final(txn)@ == old(txn)@,
{
}

/// The managers of an open transaction are handed out as they are, and what is written to them is
/// all that changes. A discarded transaction hands out neither.
pub proof fn law_managers<'a, K, V, C, P, O, E>(
    txn: &'a mut AsyncWtm<K, V, C, P, O>,
    managers: Result<(&'a mut P, Option<&'a mut C>), TransactionError<E>>,
)
    requires
        call_ensures(AsyncWtm::<K, V, C, P, O>::managers::<E>, (txn,), managers),
    ensures
        old(txn)@.discarded ==> {
            &&& managers matches Err(TransactionError::Discard)
            &&& final(txn)@ == old(txn)@
        },
        !old(txn)@.discarded ==> {
            &&& managers is Ok
            &&& managers->Ok_0.1 is Some <==> old(txn)@.conflict_manager is Some
        },
        managers matches Ok((p, None)) ==> {
            &&& old(txn)@.pending_writes == Some(*p)
            &&& final(txn)@ == (WtmView { pending_writes: Some(*final(p)), ..old(txn)@ })
        },
        managers matches Ok((p, Some(c))) ==> {
            &&& old(txn)@.pending_writes == Some(*p)
            &&& old(txn)@.conflict_manager == Some(*c)
            &&& final(txn)@ == (WtmView {
                pending_writes: Some(*final(p)),
                conflict_manager: Some(*final(c)),
                ..old(txn)@
            })
        },
{
}

/// The conflict manager is handed out as it is, discarded or not, and what is written to it is all
/// that changes.
pub proof fn law_cm_mut<'a, K, V, C, P, O>(
    txn: &'a mut AsyncWtm<K, V, C, P, O>,
    cm: Option<&'a mut C>,
)
    requires
        call_ensures(AsyncWtm::<K, V, C, P, O>::cm_mut, (txn,), cm),
    ensures
        cm is Some <==> old(txn)@.conflict_manager is Some,
        cm is None ==> final(txn)@ == old(txn)@,
        cm matches Some(c) ==> {
            &&& old(txn)@.conflict_manager == Some(*c)
            &&& final(txn)@ == (WtmView { conflict_manager: Some(*final(c)), ..old(txn)@ })
        },
{
}

/// A membership test finds what the pending writes manager found: an error is its error, nothing is
/// `Missing`, and a write is there unless it is a remove.
pub proof fn law_settle_contains<V, E>(
    found: Result<Option<&EntryValue<V>>, E>,
    settled: Result<Lookup<bool>, TransactionError<E>>,
)
    requires
        call_ensures(settle_contains::<V, E>, (found,), settled),
    ensures
        found matches Err(e) ==> settled == Err::<Lookup<bool>, _>(TransactionError::Pwm(e)),
        found matches Ok(None) ==> (settled matches Ok(Lookup::Missing)),
        found matches Ok(Some(ent)) ==> (settled matches Ok(Lookup::Pending(there)) && (there
            <==> ent.value is Some)),
{
}

/// A read finds what the pending writes manager found: an error is its error, nothing is `Missing`,
/// a remove reads as nothing, and an insert reads as its key, its value and its version.
pub proof fn law_settle_get<'a, K, V, E>(
    found: Result<Option<(&'a K, &'a EntryValue<V>)>, E>,
    settled: Result<Lookup<Option<EntryRef<'a, K, V>>>, TransactionError<E>>,
)
    requires
        call_ensures(settle_get::<K, V, E>, (found,), settled),
    ensures
        found matches Err(e) ==> settled == Err::<Lookup<Option<EntryRef<'a, K, V>>>, _>(
            TransactionError::Pwm(e),
        ),
        found matches Ok(None) ==> (settled matches Ok(Lookup::Missing)),
        found matches Ok(Some((key, ent))) ==> {
            &&& settled matches Ok(Lookup::Pending(entry))
            &&& entry is Some <==> ent.value is Some
            &&& entry matches Some(entry) ==> {
                &&& entry.version == ent.version
                &&& entry.data matches EntryDataRef::Insert { key: key2, value }
                &&& *key2 == *key
                &&& Some(*value) == ent.value
            }
        },
{
}

/// Marking through a marker does to the conflict manager what its own `mark_read` does.
pub proof fn law_marker_marks<'a, C: Cm>(marker: &mut Marker<'a, C>, key: &C::Key)
    requires
        call_ensures(Marker::<'a, C>::mark, (marker, key), ()),
    ensures
        old(marker).marker.mark_read_makes(key, final(marker).marker),
        *final(final(marker).marker) == *final(old(marker).marker),
{
}

/// Marking a key as read does to the conflict manager, if there is one, what its own `mark_read`
/// does, discarded or not, and changes nothing else.
pub proof fn law_mark_read<K, V, C, P, O>(txn: &mut AsyncWtm<K, V, C, P, O>, key: &K) where
    C: Cm<Key = K>,
    P: Pwm<Key = K, Value = V>,

    requires
        call_ensures(AsyncWtm::<K, V, C, P, O>::mark_read, (txn, key), ()),
    ensures
        call_requires(AsyncWtm::<K, V, C, P, O>::mark_read, (txn, key)),
        match (old(txn)@.conflict_manager, final(txn)@.conflict_manager) {
            (Some(cm), Some(cm2)) => cm.mark_read_makes(key, &cm2),
            (None, None) => true,
            _ => false,
        },
        final(txn)@ == (WtmView {
            conflict_manager: final(txn)@.conflict_manager,
            ..old(txn)@
        }),
{
}

/// Marking a key as written does to the conflict manager, if there is one, what its own
/// `mark_conflict` does, discarded or not, and changes nothing else.
pub proof fn law_mark_conflict<K, V, C, P, O>(txn: &mut AsyncWtm<K, V, C, P, O>, key: &K) where
    C: Cm<Key = K>,
    P: Pwm<Key = K, Value = V>,

    requires
        call_ensures(AsyncWtm::<K, V, C, P, O>::mark_conflict, (txn, key), ()),
    ensures
        call_requires(AsyncWtm::<K, V, C, P, O>::mark_conflict, (txn, key)),
        match (old(txn)@.conflict_manager, final(txn)@.conflict_manager) {
            (Some(cm), Some(cm2)) => cm.mark_conflict_makes(key, &cm2),
            (None, None) => true,
            _ => false,
        },
        final(txn)@ == (WtmView {
            conflict_manager: final(txn)@.conflict_manager,
            ..old(txn)@
        }),
{
}

/// Marking a key as read does to the conflict manager, if there is one, what its own
/// `mark_read_equivalent` does, discarded or not, and changes nothing else.
pub proof fn law_mark_read_equivalent<K, V, C, P, O, Q>(
    txn: &mut AsyncWtm<K, V, C, P, O>,
    key: &Q,
) where
    C: CmEquivalent<Key = K>,
    P: Pwm<Key = K, Value = V>,
    K: Borrow<Q>,
    Q: ?Sized + Eq + Hash,

    requires
        call_ensures(AsyncWtm::<K, V, C, P, O>::mark_read_equivalent::<Q>, (txn, key), ()),
    ensures
        call_requires(AsyncWtm::<K, V, C, P, O>::mark_read_equivalent::<Q>, (txn, key)),
        match (old(txn)@.conflict_manager, final(txn)@.conflict_manager) {
            (Some(cm), Some(cm2)) => cm.mark_read_equivalent_makes(key, &cm2),
            (None, None) => true,
            _ => false,
        },
        final(txn)@ == (WtmView {
            conflict_manager: final(txn)@.conflict_manager,
            ..old(txn)@
        }),
{
}

/// Marking a key as written does to the conflict manager, if there is one, what its own
/// `mark_conflict_equivalent` does, discarded or not, and changes nothing else.
pub proof fn law_mark_conflict_equivalent<K, V, C, P, O, Q>(
    txn: &mut AsyncWtm<K, V, C, P, O>,
    key: &Q,
) where
    C: CmEquivalent<Key = K>,
    P: Pwm<Key = K, Value = V>,
    K: Borrow<Q>,
    Q: ?Sized + Eq + Hash,

    requires
        call_ensures(AsyncWtm::<K, V, C, P, O>::mark_conflict_equivalent::<Q>, (txn, key), ()),
    ensures
        call_requires(AsyncWtm::<K, V, C, P, O>::mark_conflict_equivalent::<Q>, (txn, key)),
        match (old(txn)@.conflict_manager, final(txn)@.conflict_manager) {
            (Some(cm), Some(cm2)) => cm.mark_conflict_equivalent_makes(key, &cm2),
            (None, None) => true,
            _ => false,
        },
        final(txn)@ == (WtmView {
            conflict_manager: final(txn)@.conflict_manager,
            ..old(txn)@
        }),
{
}

/// Marking a key as read does to the conflict manager, if there is one, what its own
/// `mark_read_comparable` does, discarded or not, and changes nothing else.
pub proof fn law_mark_read_comparable<K, V, C, P, O, Q>(
    txn: &mut AsyncWtm<K, V, C, P, O>,
    key: &Q,
) where
    C: CmComparable<Key = K>,
    P: Pwm<Key = K, Value = V>,
    K: Borrow<Q>,
    Q: ?Sized + Ord,

    requires
        call_ensures(AsyncWtm::<K, V, C, P, O>::mark_read_comparable::<Q>, (txn, key), ()),
    ensures
        call_requires(AsyncWtm::<K, V, C, P, O>::mark_read_comparable::<Q>, (txn, key)),
        match (old(txn)@.conflict_manager, final(txn)@.conflict_manager) {
            (Some(cm), Some(cm2)) => cm.mark_read_comparable_makes(key, &cm2),
            (None, None) => true,
            _ => false,
        },
        final(txn)@ == (WtmView {
            conflict_manager: final(txn)@.conflict_manager,
            ..old(txn)@
        }),
{
}

/// Marking a key as written does to the conflict manager, if there is one, what its own
/// `mark_conflict_comparable` does, discarded or not, and changes nothing else.
pub proof fn law_mark_conflict_comparable<K, V, C, P, O, Q>(
    txn: &mut AsyncWtm<K, V, C, P, O>,
    key: &Q,
) where
    C: CmComparable<Key = K>,
    P: Pwm<Key = K, Value = V>,
    K: Borrow<Q>,
    Q: ?Sized + Ord,

    requires
        call_ensures(AsyncWtm::<K, V, C, P, O>::mark_conflict_comparable::<Q>, (txn, key), ()),
    ensures
        call_requires(AsyncWtm::<K, V, C, P, O>::mark_conflict_comparable::<Q>, (txn, key)),
        match (old(txn)@.conflict_manager, final(txn)@.conflict_manager) {
            (Some(cm), Some(cm2)) => cm.mark_conflict_comparable_makes(key, &cm2),
            (None, None) => true,
            _ => false,
        },
        final(txn)@ == (WtmView {
            conflict_manager: final(txn)@.conflict_manager,
            ..old(txn)@
        }),
{
}

/// `contains_key` on an open transaction answers what its pending writes manager finds at the key:
/// the manager's error; or whether the write that it holds is an insert; or nothing. Only a key
/// that has no pending write is recorded as read, and nothing but the record changes. A discarded
/// transaction answers `Discard` and changes nothing.
pub proof fn law_contains_key<'a, K, V, C, P, O>(
    txn: &'a mut AsyncWtm<K, V, C, P, O>,
    key: &'a K,
    answer: Result<Option<bool>, TransactionError<P::Error>>,
) where C: Cm<Key = K>, P: Pwm<Key = K, Value = V>
    requires
        call_ensures(AsyncWtm::<K, V, C, P, O>::contains_key, (txn, key), answer),
    ensures
        old(txn)@.count < u64::MAX && (old(txn)@.discarded || old(txn)@.pending_writes is Some)
            ==> call_requires(AsyncWtm::<K, V, C, P, O>::contains_key, (txn, key)),
        (answer matches Err(TransactionError::Discard)) <==> old(txn)@.discarded,
        old(txn)@.discarded ==> final(txn)@ == old(txn)@,
        !old(txn)@.discarded ==> exists|found: Result<Option<&EntryValue<V>>, P::Error>|
            {
                &&& #[trigger] old(txn)@.pending_writes->0.get_gives(key, found)
                &&& match found {
                    Err(e) => {
                        &&& answer == Err::<Option<bool>, _>(TransactionError::Pwm(e))
                        &&& final(txn)@ == old(txn)@
                    },
                    Ok(Some(ent)) => {
                        &&& answer == Ok::<_, TransactionError<P::Error>>(
                            Some(ent.value is Some),
                        )
                        &&& final(txn)@ == old(txn)@
                    },
                    Ok(None) => {
                        &&& answer matches Ok(None)
                        &&& match (old(txn)@.conflict_manager, final(txn)@.conflict_manager) {
                            (Some(cm), Some(cm2)) => cm.mark_read_makes(key, &cm2),
                            (None, None) => true,
                            _ => false,
                        }
                        &&& final(txn)@ == (WtmView {
                            conflict_manager: final(txn)@.conflict_manager,
                            ..old(txn)@
                        })
                    },
                }
            },
{
}

/// `contains_key_equivalent` on an open transaction answers what its pending writes manager finds
/// at the key: the manager's error; or whether the write that it holds is an insert; or nothing.
/// Only a key that has no pending write is recorded as read, and nothing but the record changes. A
/// discarded transaction answers `Discard` and changes nothing.
pub proof fn law_contains_key_equivalent<'a, K, V, C, P, O, Q>(
    txn: &'a mut AsyncWtm<K, V, C, P, O>,
    key: &'a Q,
    answer: Result<Option<bool>, TransactionError<P::Error>>,
) where
    C: CmEquivalent<Key = K>,
    P: PwmEquivalent<Key = K, Value = V>,
    K: Borrow<Q>,
    Q: ?Sized + Eq + Hash,

    requires
        call_ensures(AsyncWtm::<K, V, C, P, O>::contains_key_equivalent::<Q>, (txn, key), answer),
    ensures
        old(txn)@.count < u64::MAX && (old(txn)@.discarded || old(txn)@.pending_writes is Some)
            ==> call_requires(AsyncWtm::<K, V, C, P, O>::contains_key_equivalent::<Q>, (txn, key)),
        (answer matches Err(TransactionError::Discard)) <==> old(txn)@.discarded,
        old(txn)@.discarded ==> final(txn)@ == old(txn)@,
        !old(txn)@.discarded ==> exists|found: Result<Option<&EntryValue<V>>, P::Error>|
            {
                &&& #[trigger] old(txn)@.pending_writes->0.get_equivalent_gives(key, found)
                &&& match found {
                    Err(e) => {
                        &&& answer == Err::<Option<bool>, _>(TransactionError::Pwm(e))
                        &&& final(txn)@ == old(txn)@
                    },
                    Ok(Some(ent)) => {
                        &&& answer == Ok::<_, TransactionError<P::Error>>(
                            Some(ent.value is Some),
                        )
                        &&& final(txn)@ == old(txn)@
                    },
                    Ok(None) => {
                        &&& answer matches Ok(None)
                        &&& match (old(txn)@.conflict_manager, final(txn)@.conflict_manager) {
                            (Some(cm), Some(cm2)) => cm.mark_read_equivalent_makes(key, &cm2),
                            (None, None) => true,
                            _ => false,
                        }
                        &&& final(txn)@ == (WtmView {
                            conflict_manager: final(txn)@.conflict_manager,
                            ..old(txn)@
                        })
                    },
                }
            },
{
}

/// `contains_key_comparable` on an open transaction answers what its pending writes manager finds
/// at the key: the manager's error; or whether the write that it holds is an insert; or nothing.
/// Only a key that has no pending write is recorded as read, and nothing but the record changes. A
/// discarded transaction answers `Discard` and changes nothing.
pub proof fn law_contains_key_comparable<'a, K, V, C, P, O, Q>(
    txn: &'a mut AsyncWtm<K, V, C, P, O>,
    key: &'a Q,
    answer: Result<Option<bool>, TransactionError<P::Error>>,
) where
    C: CmComparable<Key = K>,
    P: PwmComparable<Key = K, Value = V>,
    K: Borrow<Q>,
    Q: ?Sized + Ord,

    requires
        call_ensures(AsyncWtm::<K, V, C, P, O>::contains_key_comparable::<Q>, (txn, key), answer),
    ensures
        old(txn)@.count < u64::MAX && (old(txn)@.discarded || old(txn)@.pending_writes is Some)
            ==> call_requires(AsyncWtm::<K, V, C, P, O>::contains_key_comparable::<Q>, (txn, key)),
        (answer matches Err(TransactionError::Discard)) <==> old(txn)@.discarded,
        old(txn)@.discarded ==> final(txn)@ == old(txn)@,
        !old(txn)@.discarded ==> exists|found: Result<Option<&EntryValue<V>>, P::Error>|
            {
                &&& #[trigger] old(txn)@.pending_writes->0.get_comparable_gives(key, found)
                &&& match found {
                    Err(e) => {
                        &&& answer == Err::<Option<bool>, _>(TransactionError::Pwm(e))
                        &&& final(txn)@ == old(txn)@
                    },
                    Ok(Some(ent)) => {
                        &&& answer == Ok::<_, TransactionError<P::Error>>(
                            Some(ent.value is Some),
                        )
                        &&& final(txn)@ == old(txn)@
                    },
                    Ok(None) => {
                        &&& answer matches Ok(None)
                        &&& match (old(txn)@.conflict_manager, final(txn)@.conflict_manager) {
                            (Some(cm), Some(cm2)) => cm.mark_read_comparable_makes(key, &cm2),
                            (None, None) => true,
                            _ => false,
                        }
                        &&& final(txn)@ == (WtmView {
                            conflict_manager: final(txn)@.conflict_manager,
                            ..old(txn)@
                        })
                    },
                }
            },
{
}

/// `contains_key_comparable_cm_equivalent_pm` on an open transaction answers what its pending
/// writes manager finds at the key: the manager's error; or whether the write that it holds is an
/// insert; or nothing. Only a key that has no pending write is recorded as read, and nothing but
/// the record changes. A discarded transaction answers `Discard` and changes nothing.
pub proof fn law_contains_key_comparable_cm_equivalent_pm<'a, K, V, C, P, O, Q>(
    txn: &'a mut AsyncWtm<K, V, C, P, O>,
    key: &'a Q,
    answer: Result<Option<bool>, TransactionError<P::Error>>,
) where
    C: CmComparable<Key = K>,
    P: PwmEquivalent<Key = K, Value = V>,
    K: Borrow<Q>,
    Q: ?Sized + Eq + Ord + Hash,

    requires
        call_ensures(
            AsyncWtm::<K, V, C, P, O>::contains_key_comparable_cm_equivalent_pm::<Q>,
            (txn, key),
            answer,
        ),
    ensures
        old(txn)@.count < u64::MAX && (old(txn)@.discarded || old(txn)@.pending_writes is Some)
            ==> call_requires(
                AsyncWtm::<K, V, C, P, O>::contains_key_comparable_cm_equivalent_pm::<Q>,
                (txn, key),
            ),
        (answer matches Err(TransactionError::Discard)) <==> old(txn)@.discarded,
        old(txn)@.discarded ==> final(txn)@ == old(txn)@,
        !old(txn)@.discarded ==> exists|found: Result<Option<&EntryValue<V>>, P::Error>|
            {
                &&& #[trigger] old(txn)@.pending_writes->0.get_equivalent_gives(key, found)
                &&& match found {
                    Err(e) => {
                        &&& answer == Err::<Option<bool>, _>(TransactionError::Pwm(e))
                        &&& final(txn)@ == old(txn)@
                    },
                    Ok(Some(ent)) => {
                        &&& answer == Ok::<_, TransactionError<P::Error>>(
                            Some(ent.value is Some),
                        )
                        &&& final(txn)@ == old(txn)@
                    },
                    Ok(None) => {
                        &&& answer matches Ok(None)
                        &&& match (old(txn)@.conflict_manager, final(txn)@.conflict_manager) {
                            (Some(cm), Some(cm2)) => cm.mark_read_comparable_makes(key, &cm2),
                            (None, None) => true,
                            _ => false,
                        }
                        &&& final(txn)@ == (WtmView {
                            conflict_manager: final(txn)@.conflict_manager,
                            ..old(txn)@
                        })
                    },
                }
            },
{
}

/// `contains_key_equivalent_cm_comparable_pm` on an open transaction answers what its pending
/// writes manager finds at the key: the manager's error; or whether the write that it holds is an
/// insert; or nothing. Only a key that has no pending write is recorded as read, and nothing but
/// the record changes. A discarded transaction answers `Discard` and changes nothing.
pub proof fn law_contains_key_equivalent_cm_comparable_pm<'a, K, V, C, P, O, Q>(
    txn: &'a mut AsyncWtm<K, V, C, P, O>,
    key: &'a Q,
    answer: Result<Option<bool>, TransactionError<P::Error>>,
) where
    C: CmEquivalent<Key = K>,
    P: PwmComparable<Key = K, Value = V>,
    K: Borrow<Q>,
    Q: ?Sized + Eq + Ord + Hash,

    requires
        call_ensures(
            AsyncWtm::<K, V, C, P, O>::contains_key_equivalent_cm_comparable_pm::<Q>,
            (txn, key),
            answer,
        ),
    ensures
        old(txn)@.count < u64::MAX && (old(txn)@.discarded || old(txn)@.pending_writes is Some)
            ==> call_requires(
                AsyncWtm::<K, V, C, P, O>::contains_key_equivalent_cm_comparable_pm::<Q>,
                (txn, key),
            ),
        (answer matches Err(TransactionError::Discard)) <==> old(txn)@.discarded,
        old(txn)@.discarded ==> final(txn)@ == old(txn)@,
        !old(txn)@.discarded ==> exists|found: Result<Option<&EntryValue<V>>, P::Error>|
            {
                &&& #[trigger] old(txn)@.pending_writes->0.get_comparable_gives(key, found)
                &&& match found {
                    Err(e) => {
                        &&& answer == Err::<Option<bool>, _>(TransactionError::Pwm(e))
                        &&& final(txn)@ == old(txn)@
                    },
                    Ok(Some(ent)) => {
                        &&& answer == Ok::<_, TransactionError<P::Error>>(
                            Some(ent.value is Some),
                        )
                        &&& final(txn)@ == old(txn)@
                    },
                    Ok(None) => {
                        &&& answer matches Ok(None)
                        &&& match (old(txn)@.conflict_manager, final(txn)@.conflict_manager) {
                            (Some(cm), Some(cm2)) => cm.mark_read_equivalent_makes(key, &cm2),
                            (None, None) => true,
                            _ => false,
                        }
                        &&& final(txn)@ == (WtmView {
                            conflict_manager: final(txn)@.conflict_manager,
                            ..old(txn)@
                        })
                    },
                }
            },
{
}

/// `get` on an open transaction answers what its pending writes manager finds at the key: the
/// manager's error; or the key, the value and the version of an insert; or nothing for a remove and
/// for a key that is not there. Only a key that has no pending write is recorded as read, and
/// nothing but the record changes. A discarded transaction answers `Discard` and changes nothing.
pub proof fn law_get<'a, K, V, C, P, O>(
    txn: &'a mut AsyncWtm<K, V, C, P, O>,
    key: &'a K,
    answer: Result<Option<EntryRef<'a, K, V>>, TransactionError<P::Error>>,
) where C: Cm<Key = K>, P: Pwm<Key = K, Value = V>
    requires
        call_ensures(AsyncWtm::<K, V, C, P, O>::get, (txn, key), answer),
    ensures
        old(txn)@.count < u64::MAX && (old(txn)@.discarded || old(txn)@.pending_writes is Some)
            ==> call_requires(AsyncWtm::<K, V, C, P, O>::get, (txn, key)),
        (answer matches Err(TransactionError::Discard)) <==> old(txn)@.discarded,
        old(txn)@.discarded ==> final(txn)@ == old(txn)@,
        !old(txn)@.discarded ==> exists|found: Result<Option<&EntryValue<V>>, P::Error>|
            {
                &&& #[trigger] old(txn)@.pending_writes->0.get_gives(key, found)
                &&& match found {
                    Err(e) => {
                        &&& answer == Err::<Option<EntryRef<'a, K, V>>, _>(TransactionError::Pwm(e))
                        &&& final(txn)@ == old(txn)@
                    },
                    Ok(Some(ent)) => {
                        &&& answer is Ok
                        &&& answer->Ok_0 is Some <==> ent.value is Some
                        &&& answer->Ok_0 matches Some(entry) ==> {
                            &&& entry.version == ent.version
                            &&& entry.data matches EntryDataRef::Insert { key: key2, value }
                            &&& *key2 == *key
                            &&& Some(*value) == ent.value
                        }
                        &&& final(txn)@ == old(txn)@
                    },
                    Ok(None) => {
                        &&& answer matches Ok(None)
                        &&& match (old(txn)@.conflict_manager, final(txn)@.conflict_manager) {
                            (Some(cm), Some(cm2)) => cm.mark_read_makes(key, &cm2),
                            (None, None) => true,
                            _ => false,
                        }
                        &&& final(txn)@ == (WtmView {
                            conflict_manager: final(txn)@.conflict_manager,
                            ..old(txn)@
                        })
                    },
                }
            },
{
}

/// `get_equivalent` on an open transaction answers what its pending writes manager finds at the
/// key: the manager's error; or the key, the value and the version of an insert; or nothing for a
/// remove and for a key that is not there. Only a key that has no pending write is recorded as
/// read, and nothing but the record changes. A discarded transaction answers `Discard` and changes
/// nothing.
pub proof fn law_get_equivalent<'a, K, V, C, P, O, Q>(
    txn: &'a mut AsyncWtm<K, V, C, P, O>,
    key: &'a Q,
    answer: Result<Option<EntryRef<'a, K, V>>, TransactionError<P::Error>>,
) where
    C: CmEquivalent<Key = K>,
    P: PwmEquivalent<Key = K, Value = V>,
    K: Borrow<Q>,
    Q: ?Sized + Eq + Hash,

    requires
        call_ensures(AsyncWtm::<K, V, C, P, O>::get_equivalent::<Q>, (txn, key), answer),
    ensures
        old(txn)@.count < u64::MAX && (old(txn)@.discarded || old(txn)@.pending_writes is Some)
            ==> call_requires(AsyncWtm::<K, V, C, P, O>::get_equivalent::<Q>, (txn, key)),
        (answer matches Err(TransactionError::Discard)) <==> old(txn)@.discarded,
        old(txn)@.discarded ==> final(txn)@ == old(txn)@,
        !old(txn)@.discarded ==> exists|found: Result<Option<(&K, &EntryValue<V>)>, P::Error>|
            {
                &&& #[trigger] old(txn)@.pending_writes->0.get_entry_equivalent_gives(key, found)
                &&& match found {
                    Err(e) => {
                        &&& answer == Err::<Option<EntryRef<'a, K, V>>, _>(TransactionError::Pwm(e))
                        &&& final(txn)@ == old(txn)@
                    },
                    Ok(Some((found_key, ent))) => {
                        &&& answer is Ok
                        &&& answer->Ok_0 is Some <==> ent.value is Some
                        &&& answer->Ok_0 matches Some(entry) ==> {
                            &&& entry.version == ent.version
                            &&& entry.data matches EntryDataRef::Insert { key: key2, value }
                            &&& *key2 == *found_key
                            &&& Some(*value) == ent.value
                        }
                        &&& final(txn)@ == old(txn)@
                    },
                    Ok(None) => {
                        &&& answer matches Ok(None)
                        &&& match (old(txn)@.conflict_manager, final(txn)@.conflict_manager) {
                            (Some(cm), Some(cm2)) => cm.mark_read_equivalent_makes(key, &cm2),
                            (None, None) => true,
                            _ => false,
                        }
                        &&& final(txn)@ == (WtmView {
                            conflict_manager: final(txn)@.conflict_manager,
                            ..old(txn)@
                        })
                    },
                }
            },
{
}

/// `get_comparable` on an open transaction answers what its pending writes manager finds at the
/// key: the manager's error; or the key, the value and the version of an insert; or nothing for a
/// remove and for a key that is not there. Only a key that has no pending write is recorded as
/// read, and nothing but the record changes. A discarded transaction answers `Discard` and changes
/// nothing.
pub proof fn law_get_comparable<'a, K, V, C, P, O, Q>(
    txn: &'a mut AsyncWtm<K, V, C, P, O>,
    key: &'a Q,
    answer: Result<Option<EntryRef<'a, K, V>>, TransactionError<P::Error>>,
) where
    C: CmComparable<Key = K>,
    P: PwmComparable<Key = K, Value = V>,
    K: Borrow<Q>,
    Q: ?Sized + Ord,

    requires
        call_ensures(AsyncWtm::<K, V, C, P, O>::get_comparable::<Q>, (txn, key), answer),
    ensures
        old(txn)@.count < u64::MAX && (old(txn)@.discarded || old(txn)@.pending_writes is Some)
            ==> call_requires(AsyncWtm::<K, V, C, P, O>::get_comparable::<Q>, (txn, key)),
        (answer matches Err(TransactionError::Discard)) <==> old(txn)@.discarded,
        old(txn)@.discarded ==> final(txn)@ == old(txn)@,
        !old(txn)@.discarded ==> exists|found: Result<Option<(&K, &EntryValue<V>)>, P::Error>|
            {
                &&& #[trigger] old(txn)@.pending_writes->0.get_entry_comparable_gives(key, found)
                &&& match found {
                    Err(e) => {
                        &&& answer == Err::<Option<EntryRef<'a, K, V>>, _>(TransactionError::Pwm(e))
                        &&& final(txn)@ == old(txn)@
                    },
                    Ok(Some((found_key, ent))) => {
                        &&& answer is Ok
                        &&& answer->Ok_0 is Some <==> ent.value is Some
                        &&& answer->Ok_0 matches Some(entry) ==> {
                            &&& entry.version == ent.version
                            &&& entry.data matches EntryDataRef::Insert { key: key2, value }
                            &&& *key2 == *found_key
                            &&& Some(*value) == ent.value
                        }
                        &&& final(txn)@ == old(txn)@
                    },
                    Ok(None) => {
                        &&& answer matches Ok(None)
                        &&& match (old(txn)@.conflict_manager, final(txn)@.conflict_manager) {
                            (Some(cm), Some(cm2)) => cm.mark_read_comparable_makes(key, &cm2),
                            (None, None) => true,
                            _ => false,
                        }
                        &&& final(txn)@ == (WtmView {
                            conflict_manager: final(txn)@.conflict_manager,
                            ..old(txn)@
                        })
                    },
                }
            },
{
}

/// `get_comparable_cm_equivalent_pm` on an open transaction answers what its pending writes manager
/// finds at the key: the manager's error; or the key, the value and the version of an insert; or
/// nothing for a remove and for a key that is not there. Only a key that has no pending write is
/// recorded as read, and nothing but the record changes. A discarded transaction answers `Discard`
/// and changes nothing.
pub proof fn law_get_comparable_cm_equivalent_pm<'a, K, V, C, P, O, Q>(
    txn: &'a mut AsyncWtm<K, V, C, P, O>,
    key: &'a Q,
    answer: Result<Option<EntryRef<'a, K, V>>, TransactionError<P::Error>>,
) where
    C: CmComparable<Key = K>,
    P: PwmEquivalent<Key = K, Value = V>,
    K: Borrow<Q>,
    Q: ?Sized + Eq + Ord + Hash,

    requires
        call_ensures(
            AsyncWtm::<K, V, C, P, O>::get_comparable_cm_equivalent_pm::<Q>,
            (txn, key),
            answer,
        ),
    ensures
        old(txn)@.count < u64::MAX && (old(txn)@.discarded || old(txn)@.pending_writes is Some)
            ==> call_requires(
                AsyncWtm::<K, V, C, P, O>::get_comparable_cm_equivalent_pm::<Q>,
                (txn, key),
            ),
        (answer matches Err(TransactionError::Discard)) <==> old(txn)@.discarded,
        old(txn)@.discarded ==> final(txn)@ == old(txn)@,
        !old(txn)@.discarded ==> exists|found: Result<Option<(&K, &EntryValue<V>)>, P::Error>|
            {
                &&& #[trigger] old(txn)@.pending_writes->0.get_entry_equivalent_gives(key, found)
                &&& match found {
                    Err(e) => {
                        &&& answer == Err::<Option<EntryRef<'a, K, V>>, _>(TransactionError::Pwm(e))
                        &&& final(txn)@ == old(txn)@
                    },
                    Ok(Some((found_key, ent))) => {
                        &&& answer is Ok
                        &&& answer->Ok_0 is Some <==> ent.value is Some
                        &&& answer->Ok_0 matches Some(entry) ==> {
                            &&& entry.version == ent.version
                            &&& entry.data matches EntryDataRef::Insert { key: key2, value }
                            &&& *key2 == *found_key
                            &&& Some(*value) == ent.value
                        }
                        &&& final(txn)@ == old(txn)@
                    },
                    Ok(None) => {
                        &&& answer matches Ok(None)
                        &&& match (old(txn)@.conflict_manager, final(txn)@.conflict_manager) {
                            (Some(cm), Some(cm2)) => cm.mark_read_comparable_makes(key, &cm2),
                            (None, None) => true,
                            _ => false,
                        }
                        &&& final(txn)@ == (WtmView {
                            conflict_manager: final(txn)@.conflict_manager,
                            ..old(txn)@
                        })
                    },
                }
            },
{
}

/// `get_equivalent_cm_comparable_pm` on an open transaction answers what its pending writes manager
/// finds at the key: the manager's error; or the key, the value and the version of an insert; or
/// nothing for a remove and for a key that is not there. Only a key that has no pending write is
/// recorded as read, and nothing but the record changes. A discarded transaction answers `Discard`
/// and changes nothing.
pub proof fn law_get_equivalent_cm_comparable_pm<'a, K, V, C, P, O, Q>(
    txn: &'a mut AsyncWtm<K, V, C, P, O>,
    key: &'a Q,
    answer: Result<Option<EntryRef<'a, K, V>>, TransactionError<P::Error>>,
) where
    C: CmEquivalent<Key = K>,
    P: PwmComparable<Key = K, Value = V>,
    K: Borrow<Q>,
    Q: ?Sized + Eq + Ord + Hash,

    requires
        call_ensures(
            AsyncWtm::<K, V, C, P, O>::get_equivalent_cm_comparable_pm::<Q>,
            (txn, key),
            answer,
        ),
    ensures
        old(txn)@.count < u64::MAX && (old(txn)@.discarded || old(txn)@.pending_writes is Some)
            ==> call_requires(
                AsyncWtm::<K, V, C, P, O>::get_equivalent_cm_comparable_pm::<Q>,
                (txn, key),
            ),
        (answer matches Err(TransactionError::Discard)) <==> old(txn)@.discarded,
        old(txn)@.discarded ==> final(txn)@ == old(txn)@,
        !old(txn)@.discarded ==> exists|found: Result<Option<(&K, &EntryValue<V>)>, P::Error>|
            {
                &&& #[trigger] old(txn)@.pending_writes->0.get_entry_comparable_gives(key, found)
                &&& match found {
                    Err(e) => {
                        &&& answer == Err::<Option<EntryRef<'a, K, V>>, _>(TransactionError::Pwm(e))
                        &&& final(txn)@ == old(txn)@
                    },
                    Ok(Some((found_key, ent))) => {
                        &&& answer is Ok
                        &&& answer->Ok_0 is Some <==> ent.value is Some
                        &&& answer->Ok_0 matches Some(entry) ==> {
                            &&& entry.version == ent.version
                            &&& entry.data matches EntryDataRef::Insert { key: key2, value }
                            &&& *key2 == *found_key
                            &&& Some(*value) == ent.value
                        }
                        &&& final(txn)@ == old(txn)@
                    },
                    Ok(None) => {
                        &&& answer matches Ok(None)
                        &&& match (old(txn)@.conflict_manager, final(txn)@.conflict_manager) {
                            (Some(cm), Some(cm2)) => cm.mark_read_equivalent_makes(key, &cm2),
                            (None, None) => true,
                            _ => false,
                        }
                        &&& final(txn)@ == (WtmView {
                            conflict_manager: final(txn)@.conflict_manager,
                            ..old(txn)@
                        })
                    },
                }
            },
{
}

} // verus!
