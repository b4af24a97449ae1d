//! What holds of discarding and of every step of a commit, stated of the calls themselves. A law of
//! a step takes that step alone: it supposes nothing of the steps that come after it.
use crate::commit::{
    batch_entries, Commit, CommitAction, CommitEvent, CreateCommitTimestampResult, Stage,
};
use crate::error::{TransactionError, WtmError};
use crate::sync::{Cm, Pwm};
use crate::types::{Entry, EntryData, EntryValue};
use crate::write::{AsyncWtm, WtmView};
use vstd::prelude::*;

verus! {

/// Discarding an open transaction releases its read timestamp, unless that was released before, and
/// leaves what it holds as it was. Discarding it again does nothing.
pub proof fn law_close<K, V, C, P, O>(
    txn: &mut AsyncWtm<K, V, C, P, O>,
    released: Option<u64>,
)
    requires
        call_ensures(AsyncWtm::<K, V, C, P, O>::close, (txn,), released),
    ensures
        call_requires(AsyncWtm::<K, V, C, P, O>::close, (txn,)),
        final(txn)@.discarded,
        released is Some <==> !old(txn)@.discarded && !old(txn)@.done_read,
        released matches Some(ts) ==> ts == old(txn)@.read_ts,
        old(txn)@.discarded ==> final(txn)@ == old(txn)@,
        !old(txn)@.discarded ==> final(txn)@ == (WtmView {
            discarded: true,
            done_read: true,
            ..old(txn)@
        }),
{
}

/// Discarding a transaction for good releases its read timestamp if and only if it is open and that
/// was not released before.
pub proof fn law_discard<K, V, C, P, O>(
    txn: AsyncWtm<K, V, C, P, O>,
    released: Option<u64>,
)
    requires
        call_ensures(AsyncWtm::<K, V, C, P, O>::discard, (txn,), released),
    ensures
        call_requires(AsyncWtm::<K, V, C, P, O>::discard, (txn,)),
        released is Some <==> !txn@.discarded && !txn@.done_read,
        released matches Some(ts) ==> ts == txn@.read_ts,
{
}

/// A batch holds one entry for each pending write, in their order, and then one for each duplicate,
/// in their order. Each is at the commit timestamp, and says of its key what the write says.
pub proof fn law_batch_entries<K, V>(
    commit_ts: u64,
    writes: Vec<(K, EntryValue<V>)>,
    duplicates: Vec<Entry<K, V>>,
    entries: Vec<Entry<K, V>>,
)
    requires
        call_ensures(batch_entries::<K, V>, (commit_ts, writes, duplicates), entries),
    ensures
        call_requires(batch_entries::<K, V>, (commit_ts, writes, duplicates)),
        entries@.len() == writes@.len() + duplicates@.len(),
        forall|i: int|
            0 <= i < entries@.len() ==> (#[trigger] entries@[i]).version == commit_ts,
        forall|i: int|
            0 <= i < writes@.len() ==> match (#[trigger] writes@[i]).1.value {
                Some(value) => entries@[i].data == (EntryData::Insert { key: writes@[i].0, value }),
                None => entries@[i].data == EntryData::<K, V>::Remove(writes@[i].0),
            },
        forall|i: int|
            0 <= i < duplicates@.len() ==> entries@[writes@.len() + i].data == (
            #[trigger] duplicates@[i]).data,
{
}

/// Asking for a timestamp takes the conflict manager out, hands it over with the read timestamp and
/// whether that was released, and changes nothing else.
pub proof fn law_ask_timestamp<K, V, C, P, O>(
    txn: &mut AsyncWtm<K, V, C, P, O>,
    request: (bool, u64, Option<C>),
)
    requires
        call_ensures(AsyncWtm::<K, V, C, P, O>::ask_timestamp, (txn,), request),
    ensures
        call_requires(AsyncWtm::<K, V, C, P, O>::ask_timestamp, (txn,)),
        request.0 == old(txn)@.done_read,
        request.1 == old(txn)@.read_ts,
        request.2 == old(txn)@.conflict_manager,
        final(txn)@ == (WtmView { conflict_manager: None, ..old(txn)@ }),
{
}

/// A transaction that is told of a conflict answers `Conflict`, takes the conflict manager that is
/// handed back, and keeps its writes.
pub proof fn law_commit_entries_on_conflict<K, V, C, P, O>(
    txn: &mut AsyncWtm<K, V, C, P, O>,
    done_read: bool,
    conflict_manager: Option<C>,
    committed: Result<(u64, Vec<Entry<K, V>>), TransactionError<P::Error>>,
) where C: Cm<Key = K>, P: Pwm<Key = K, Value = V>
    requires
        call_ensures(
            AsyncWtm::<K, V, C, P, O>::commit_entries,
            (txn, done_read, CreateCommitTimestampResult::Conflict(conflict_manager)),
            committed,
        ),
    ensures
        old(txn)@.pending_writes is Some ==> call_requires(
            AsyncWtm::<K, V, C, P, O>::commit_entries,
            (txn, done_read, CreateCommitTimestampResult::Conflict(conflict_manager)),
        ),
        committed matches Err(TransactionError::Conflict),
        final(txn)@ == (WtmView { done_read, conflict_manager, ..old(txn)@ }),
{
}

/// A transaction that is told its commit timestamp hands out all its writes, those that its pending
/// writes manager gives and the duplicates behind them, each at the commit timestamp and saying
/// what it said. It keeps none of them, nor its conflict manager.
pub proof fn law_commit_entries_on_timestamp<K, V, C, P, O>(
    txn: &mut AsyncWtm<K, V, C, P, O>,
    done_read: bool,
    commit_ts: u64,
    committed: Result<(u64, Vec<Entry<K, V>>), TransactionError<P::Error>>,
) where C: Cm<Key = K>, P: Pwm<Key = K, Value = V>
    requires
        call_ensures(
            AsyncWtm::<K, V, C, P, O>::commit_entries,
            (txn, done_read, CreateCommitTimestampResult::Timestamp(commit_ts)),
            committed,
        ),
    ensures
        old(txn)@.pending_writes is Some && commit_ts != 0 ==> call_requires(
            AsyncWtm::<K, V, C, P, O>::commit_entries,
            (txn, done_read, CreateCommitTimestampResult::Timestamp(commit_ts)),
        ),
        committed is Ok,
        committed->Ok_0.0 == commit_ts,
        forall|i: int|
            0 <= i < committed->Ok_0.1@.len() ==> (#[trigger] committed->Ok_0.1@[i]).version
                == commit_ts,
        exists|writes: Seq<(K, EntryValue<V>)>|
            {
                &&& #[trigger] old(txn)@.pending_writes->0.into_iter_gives(writes)
                &&& committed->Ok_0.1@.len() == writes.len() + old(txn)@.duplicate_writes.len()
                &&& forall|i: int|
                    0 <= i < writes.len() ==> match (#[trigger] writes[i]).1.value {
                        Some(value) => committed->Ok_0.1@[i].data == (EntryData::Insert {
                            key: writes[i].0,
                            value,
                        }),
                        None => committed->Ok_0.1@[i].data == EntryData::<K, V>::Remove(
                            writes[i].0,
                        ),
                    }
                &&& forall|i: int|
                    0 <= i < old(txn)@.duplicate_writes.len() ==> committed->Ok_0.1@[writes.len()
                        + i].data == (#[trigger] old(txn)@.duplicate_writes[i]).data
            },
        final(txn)@.pending_writes is None,
        final(txn)@.conflict_manager is None,
        final(txn)@.duplicate_writes.len() == 0,
        final(txn)@.done_read == done_read,
        final(txn)@.read_ts == old(txn)@.read_ts,
        final(txn)@.orc == old(txn)@.orc,
        final(txn)@.size == old(txn)@.size,
        final(txn)@.count == old(txn)@.count,
        final(txn)@.discarded == old(txn)@.discarded,
{
}

/// A commit starts with the transaction as it is, in a task or not as was asked.
pub proof fn law_commit_starts<K, V, C, P, O>(
    txn: AsyncWtm<K, V, C, P, O>,
    here: Commit<K, V, C, P, O>,
    in_task: Commit<K, V, C, P, O>,
)
    requires
        call_ensures(AsyncWtm::<K, V, C, P, O>::commit, (txn,), here),
        call_ensures(AsyncWtm::<K, V, C, P, O>::commit_with_task, (txn,), in_task),
        txn@.discarded || txn@.pending_writes is Some,
        txn@.count < u64::MAX,
    ensures
        call_requires(AsyncWtm::<K, V, C, P, O>::commit, (txn,)),
        call_requires(AsyncWtm::<K, V, C, P, O>::commit_with_task, (txn,)),
        here@.stage is Start,
        here@.txn == txn@,
        !here@.in_task,
        in_task@.stage is Start,
        in_task@.txn == txn@,
        in_task@.in_task,
{
}

/// A commit shows the transaction that it holds, at every stage.
pub proof fn law_commit_shows_its_transaction<K, V, C, P, O>(
    commit: Commit<K, V, C, P, O>,
    held: &AsyncWtm<K, V, C, P, O>,
)
    requires
        call_ensures(Commit::<K, V, C, P, O>::txn, (&commit,), held),
    ensures
        held@ == commit@.txn,
{
}

/// A commit takes the event that its stage waits for, whatever the event holds but a commit
/// timestamp of zero.
pub proof fn law_commit_takes_its_event<K, V, C, P, O, E, X>(
    commit: &mut Commit<K, V, C, P, O>,
    event: CommitEvent<K, V, C, X>,
)
    requires
        match (old(commit)@.stage, event) {
            (Stage::Start, CommitEvent::Counted { .. }) => {
                &&& old(commit)@.txn.discarded || old(commit)@.txn.pending_writes is Some
                &&& old(commit)@.txn.count < u64::MAX
            },
            (Stage::Stamping, CommitEvent::Stamped { outcome, .. }) => {
                &&& !old(commit)@.txn.discarded
                &&& old(commit)@.txn.pending_writes is Some
                &&& old(commit)@.txn.count < u64::MAX
                &&& outcome != CreateCommitTimestampResult::<C>::Timestamp(0)
            },
            (Stage::Draining { .. }, CommitEvent::Drained { .. }) => true,
            (Stage::Applying { .. }, CommitEvent::Applied { .. }) => true,
            _ => false,
        },
    ensures
        call_requires(Commit::<K, V, C, P, O>::step::<E, X>, (commit, event)),
{
}

/// A commit of a discarded transaction is over at its first step: it fails with `Discard`, releases
/// nothing and changes nothing, whatever the pending writes.
pub proof fn law_step_of_discarded<K, V, C, P, O, E, X>(
    commit: &mut Commit<K, V, C, P, O>,
    empty: bool,
    action: CommitAction<K, V, C, P, E, X>,
)
    requires
        old(commit)@.stage is Start,
        old(commit)@.txn.discarded,
        call_ensures(
            Commit::<K, V, C, P, O>::step::<E, X>,
            (commit, CommitEvent::Counted { empty }),
            action,
        ),
    ensures
        action == (CommitAction::<K, V, C, P, E, X>::Finish {
            commit_ts: None,
            read_ts: None,
            result: Err(WtmError::Transaction(TransactionError::Discard)),
        }),
        final(commit)@.stage is Over,
        final(commit)@.txn == old(commit)@.txn,
{
}

/// A commit of an open transaction without pending writes is over at its first step: it succeeds,
/// in a task if it has one, releases the read timestamp unless that was released before, and
/// discards the transaction.
pub proof fn law_step_without_writes<K, V, C, P, O, E, X>(
    commit: &mut Commit<K, V, C, P, O>,
    action: CommitAction<K, V, C, P, E, X>,
)
    requires
        old(commit)@.stage is Start,
        !old(commit)@.txn.discarded,
        call_ensures(
            Commit::<K, V, C, P, O>::step::<E, X>,
            (commit, CommitEvent::Counted { empty: true }),
            action,
        ),
    ensures
        old(commit)@.in_task ==> (action matches CommitAction::SpawnReport { read_ts } && (
        old(commit)@.txn.done_read ==> read_ts is None) && (!old(commit)@.txn.done_read ==> read_ts
            == Some(old(commit)@.txn.read_ts))),
        !old(commit)@.in_task ==> (action matches CommitAction::Finish {
            commit_ts,
            read_ts,
            result,
        } && commit_ts is None && result is Ok && (old(commit)@.txn.done_read ==> read_ts is None)
            && (!old(commit)@.txn.done_read ==> read_ts == Some(old(commit)@.txn.read_ts))),
        final(commit)@.stage is Over,
        final(commit)@.txn == (WtmView { discarded: true, done_read: true, ..old(commit)@.txn }),
{
}

/// A commit of an open transaction with pending writes asks for a timestamp at its first step, with
/// or without a conflict manager and with or without a task. It hands the conflict manager over
/// with the read timestamp and whether that was released, and changes nothing else.
pub proof fn law_step_with_writes<K, V, C, P, O, E, X>(
    commit: &mut Commit<K, V, C, P, O>,
    action: CommitAction<K, V, C, P, E, X>,
)
    requires
        old(commit)@.stage is Start,
        !old(commit)@.txn.discarded,
        call_ensures(
            Commit::<K, V, C, P, O>::step::<E, X>,
            (commit, CommitEvent::Counted { empty: false }),
            action,
        ),
    ensures
        action == (CommitAction::<K, V, C, P, E, X>::Stamp {
            done_read: old(commit)@.txn.done_read,
            read_ts: old(commit)@.txn.read_ts,
            conflict_manager: old(commit)@.txn.conflict_manager,
        }),
        final(commit)@.stage is Stamping,
        final(commit)@.in_task == old(commit)@.in_task,
        final(commit)@.txn == (WtmView { conflict_manager: None, ..old(commit)@.txn }),
{
}

/// A commit that is told of a conflict is over: it fails with `Conflict` and releases the read
/// timestamp, unless the oracle did. The transaction is discarded, with its writes and with the
/// conflict manager that is handed back.
pub proof fn law_step_on_conflict<K, V, C, P, O, E, X>(
    commit: &mut Commit<K, V, C, P, O>,
    done_read: bool,
    conflict_manager: Option<C>,
    action: CommitAction<K, V, C, P, E, X>,
)
    requires
        old(commit)@.stage is Stamping,
        !old(commit)@.txn.discarded,
        call_ensures(
            Commit::<K, V, C, P, O>::step::<E, X>,
            (
                commit,
                CommitEvent::Stamped {
                    done_read,
                    outcome: CreateCommitTimestampResult::Conflict(conflict_manager),
                },
            ),
            action,
        ),
    ensures
        action == (CommitAction::<K, V, C, P, E, X>::Finish {
            commit_ts: None,
            read_ts: if done_read {
                None
            } else {
                Some(old(commit)@.txn.read_ts)
            },
            result: Err(WtmError::Transaction(TransactionError::Conflict)),
        }),
        final(commit)@.stage is Over,
        final(commit)@.txn == (WtmView {
            discarded: true,
            done_read: true,
            conflict_manager,
            ..old(commit)@.txn
        }),
{
}

/// A commit that is told its timestamp takes the pending writes manager out of the transaction, to
/// be drained, and keeps the timestamp and the duplicates for the next step.
pub proof fn law_step_on_timestamp<K, V, C, P, O, E, X>(
    commit: &mut Commit<K, V, C, P, O>,
    done_read: bool,
    commit_ts: u64,
    action: CommitAction<K, V, C, P, E, X>,
)
    requires
        old(commit)@.stage is Stamping,
        old(commit)@.txn.pending_writes is Some,
        call_ensures(
            Commit::<K, V, C, P, O>::step::<E, X>,
            (
                commit,
                CommitEvent::Stamped {
                    done_read,
                    outcome: CreateCommitTimestampResult::Timestamp(commit_ts),
                },
            ),
            action,
        ),
    ensures
        action matches CommitAction::Drain { pending } && old(commit)@.txn.pending_writes == Some(
            pending,
        ),
        final(commit)@.stage == (Stage::Draining {
            commit_ts,
            duplicates: old(commit)@.txn.duplicate_writes,
        }),
        final(commit)@.in_task == old(commit)@.in_task,
        final(commit)@.txn.pending_writes is None,
        final(commit)@.txn.conflict_manager is None,
        final(commit)@.txn.duplicate_writes.len() == 0,
        final(commit)@.txn.done_read == done_read,
        final(commit)@.txn.read_ts == old(commit)@.txn.read_ts,
        final(commit)@.txn.orc == old(commit)@.txn.orc,
        final(commit)@.txn.size == old(commit)@.txn.size,
        final(commit)@.txn.count == old(commit)@.txn.count,
        final(commit)@.txn.discarded == old(commit)@.txn.discarded,
{
}

/// A commit without a task that is handed the pending writes asks for them to be applied, whatever
/// and however many they are, and waits for that. The entries are the pending writes and then the
/// duplicates, each at the commit timestamp and saying what it said. The transaction stays open.
pub proof fn law_step_applies_the_writes<K, V, C, P, O, E, X>(
    commit: &mut Commit<K, V, C, P, O>,
    writes: Vec<(K, EntryValue<V>)>,
    commit_ts: u64,
    duplicates: Seq<Entry<K, V>>,
    action: CommitAction<K, V, C, P, E, X>,
)
    requires
        old(commit)@.stage == (Stage::Draining { commit_ts, duplicates }),
        !old(commit)@.in_task,
        call_ensures(
            Commit::<K, V, C, P, O>::step::<E, X>,
            (commit, CommitEvent::Drained { writes }),
            action,
        ),
    ensures
        action is Apply,
        action->Apply_entries@.len() == writes@.len() + duplicates.len(),
        forall|i: int|
            0 <= i < action->Apply_entries@.len() ==> (
            #[trigger] action->Apply_entries@[i]).version == commit_ts,
        forall|i: int|
            0 <= i < writes@.len() ==> match (#[trigger] writes@[i]).1.value {
                Some(value) => action->Apply_entries@[i].data == (EntryData::Insert {
                    key: writes@[i].0,
                    value,
                }),
                None => action->Apply_entries@[i].data == EntryData::<K, V>::Remove(writes@[i].0),
            },
        forall|i: int|
            0 <= i < duplicates.len() ==> action->Apply_entries@[writes@.len() + i].data == (
            #[trigger] duplicates[i]).data,
        final(commit)@.stage == (Stage::<Seq<Entry<K, V>>>::Applying { commit_ts }),
        final(commit)@.in_task == old(commit)@.in_task,
        final(commit)@.txn == old(commit)@.txn,
{
}

/// A commit with a task that is handed the pending writes is over: it hands them to the task,
/// whatever and however many they are, with the commit timestamp and the read timestamp to release.
/// The entries are the pending writes and then the duplicates, each at the commit timestamp and
/// saying what it said. The transaction is discarded.
pub proof fn law_step_spawns_the_writes<K, V, C, P, O, E, X>(
    commit: &mut Commit<K, V, C, P, O>,
    writes: Vec<(K, EntryValue<V>)>,
    commit_ts: u64,
    duplicates: Seq<Entry<K, V>>,
    action: CommitAction<K, V, C, P, E, X>,
)
    requires
        old(commit)@.stage == (Stage::Draining { commit_ts, duplicates }),
        old(commit)@.in_task,
        call_ensures(
            Commit::<K, V, C, P, O>::step::<E, X>,
            (commit, CommitEvent::Drained { writes }),
            action,
        ),
    ensures
        action is Spawn,
        action->Spawn_entries@.len() == writes@.len() + duplicates.len(),
        forall|i: int|
            0 <= i < action->Spawn_entries@.len() ==> (
            #[trigger] action->Spawn_entries@[i]).version == commit_ts,
        forall|i: int|
            0 <= i < writes@.len() ==> match (#[trigger] writes@[i]).1.value {
                Some(value) => action->Spawn_entries@[i].data == (EntryData::Insert {
                    key: writes@[i].0,
                    value,
                }),
                None => action->Spawn_entries@[i].data == EntryData::<K, V>::Remove(writes@[i].0),
            },
        forall|i: int|
            0 <= i < duplicates.len() ==> action->Spawn_entries@[writes@.len() + i].data == (
            #[trigger] duplicates[i]).data,
        action matches CommitAction::Spawn { commit_ts: ts, read_ts, .. } && ts == commit_ts && (
        read_ts is Some <==> !old(commit)@.txn.discarded && !old(commit)@.txn.done_read) && (read_ts
            is Some ==> read_ts == Some(old(commit)@.txn.read_ts)),
        final(commit)@.stage is Over,
        final(commit)@.txn.discarded,
        !old(commit)@.txn.discarded ==> final(commit)@.txn == (WtmView {
            discarded: true,
            done_read: true,
            ..old(commit)@.txn
        }),
        old(commit)@.txn.discarded ==> final(commit)@.txn == old(commit)@.txn,
{
}

/// A commit whose writes were sent to the database is over: it succeeds if and only if they were
/// applied, and fails with the database's error otherwise. Either way it releases its commit
/// timestamp, releases the read timestamp unless that was released before, and discards the
/// transaction.
pub proof fn law_step_after_applying<K, V, C, P, O, E, X>(
    commit: &mut Commit<K, V, C, P, O>,
    applied: Result<(), X>,
    at: u64,
    action: CommitAction<K, V, C, P, E, X>,
)
    requires
        old(commit)@.stage == (Stage::<Seq<Entry<K, V>>>::Applying { commit_ts: at }),
        call_ensures(
            Commit::<K, V, C, P, O>::step::<E, X>,
            (commit, CommitEvent::Applied { result: applied }),
            action,
        ),
    ensures
        action is Finish,
        action->Finish_commit_ts == Some(at),
        action->Finish_read_ts is Some <==> !old(commit)@.txn.discarded
            && !old(commit)@.txn.done_read,
        action->Finish_read_ts is Some ==> action->Finish_read_ts == Some(
            old(commit)@.txn.read_ts,
        ),
        action->result is Ok <==> applied is Ok,
        applied matches Err(e) ==> action->result == Err::<(), WtmError<E, X>>(
            WtmError::Commit(e),
        ),
        final(commit)@.stage is Over,
        final(commit)@.txn.discarded,
        !old(commit)@.txn.discarded ==> final(commit)@.txn == (WtmView {
            discarded: true,
            done_read: true,
            ..old(commit)@.txn
        }),
        old(commit)@.txn.discarded ==> final(commit)@.txn == old(commit)@.txn,
{
}

/// A commit reports success only where it is earned: after the database applied the writes, or at
/// its first step where there were none. It releases a commit timestamp only after the database was
/// written to, and hands out writes only after they were taken from the pending writes manager.
pub proof fn law_success_is_earned<K, V, C, P, O, E, X>(
    commit: &mut Commit<K, V, C, P, O>,
    event: CommitEvent<K, V, C, X>,
    action: CommitAction<K, V, C, P, E, X>,
)
    requires
        match old(commit)@.stage {
            Stage::Start => event is Counted,
            Stage::Stamping => event is Stamped,
            Stage::Draining { .. } => event is Drained,
            Stage::Applying { .. } => event is Applied,
            Stage::Over => false,
        },
        call_ensures(Commit::<K, V, C, P, O>::step::<E, X>, (commit, event), action),
    ensures
        (action matches CommitAction::Finish { result, .. } && result is Ok) ==> match event {
            CommitEvent::Applied { result } => old(commit)@.stage is Applying && result is Ok,
            CommitEvent::Counted { empty } => {
                old(commit)@.stage is Start && empty && !old(commit)@.txn.discarded
            },
            _ => false,
        },
        action is SpawnReport ==> (event matches CommitEvent::Counted { empty } && empty && !old(
            commit,
        )@.txn.discarded),
        (action matches CommitAction::Finish { commit_ts, .. } && commit_ts is Some) ==> old(
            commit,
        )@.stage is Applying,
        action is Apply || action is Spawn ==> old(commit)@.stage is Draining,
        action is Drain ==> old(commit)@.stage is Stamping,
        action is Stamp ==> old(commit)@.stage is Start,
{
}

/// A commit goes on as its actions say: each event that answers an action can be handed to it, and
/// an action that asks for nothing back leaves it over.
pub proof fn law_commit_goes_on<K, V, C, P, O, E, X>(
    commit: &mut Commit<K, V, C, P, O>,
    event: CommitEvent<K, V, C, X>,
    action: CommitAction<K, V, C, P, E, X>,
    next: &mut Commit<K, V, C, P, O>,
    answer: CommitEvent<K, V, C, X>,
)
    requires
        old(commit)@.txn.discarded || old(commit)@.txn.pending_writes is Some,
        old(commit)@.txn.count < u64::MAX,
        call_ensures(Commit::<K, V, C, P, O>::step::<E, X>, (commit, event), action),
        *old(next) == *final(commit),
        match action {
            CommitAction::Stamp { .. } => answer matches CommitEvent::Stamped { outcome, .. }
                && outcome != CreateCommitTimestampResult::<C>::Timestamp(0),
            CommitAction::Drain { .. } => answer is Drained,
            CommitAction::Apply { .. } => answer is Applied,
            _ => true,
        },
    ensures
        match action {
            CommitAction::Spawn { .. } => old(next)@.stage is Over,
            CommitAction::SpawnReport { .. } => old(next)@.stage is Over,
            CommitAction::Finish { .. } => old(next)@.stage is Over,
            _ => call_requires(Commit::<K, V, C, P, O>::step::<E, X>, (next, answer)),
        },
{
}

} // verus!
