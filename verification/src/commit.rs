//! How a transaction is committed.
//!
//! A commit alternates between waiting (for the oracle, the pending writes manager, the database)
//! and deciding what to do next. [`Commit`] decides: it is told what happened as a
//! [`CommitEvent`], and answers with the [`CommitAction`] to perform.
use crate::error::{TransactionError, WtmError};
use crate::sync::{Cm, Pwm};
use crate::types::{Entry, EntryValue};
use crate::write::{AsyncWtm, WtmView};
use vstd::prelude::*;

verus! {

/// What the oracle answers to a request for a commit timestamp.
pub enum CreateCommitTimestampResult<C> {
    /// The timestamp to commit at.
    Timestamp(u64),
    /// A key that the transaction read has been written since it started. The conflict manager
    /// is handed back.
    Conflict(Option<C>),
}

/// What happened to a transaction that is being committed.
pub enum CommitEvent<K, V, C, X> {
    /// The pending writes manager told whether it is empty.
    Counted {
        /// Whether there are no pending writes.
        empty: bool,
    },
    /// The oracle answered.
    Stamped {
        /// Whether the read timestamp is released by now.
        done_read: bool,
        /// The answer.
        outcome: CreateCommitTimestampResult<C>,
    },
    /// The pending writes manager handed its writes out.
    Drained {
        /// The writes.
        writes: Vec<(K, EntryValue<V>)>,
    },
    /// The database was written to.
    Applied {
        /// Whether that succeeded.
        result: Result<(), X>,
    },
}

/// What to do next for a transaction that is being committed.
#[allow(inconsistent_fields)]
pub enum CommitAction<K, V, C, P, E, X> {
    /// Ask the oracle for a commit timestamp, under its write lock. The lock is held until the
    /// pending writes are drained.
    Stamp {
        /// Whether the read timestamp was released before.
        done_read: bool,
        /// The read timestamp.
        read_ts: u64,
        /// The keys that the transaction read and wrote.
        conflict_manager: Option<C>,
    },
    /// Take the writes out of the pending writes manager.
    Drain {
        /// The pending writes manager.
        pending: P,
    },
    /// Write the entries to the database.
    Apply {
        /// The entries.
        entries: Vec<Entry<K, V>>,
    },
    /// Start a task that writes the entries to the database and then, whether that succeeded or
    /// not, releases the timestamps and reports what the database said. The commit is over.
    Spawn {
        /// The entries.
        entries: Vec<Entry<K, V>>,
        /// The commit timestamp to release.
        commit_ts: u64,
        /// The read timestamp to release, if any.
        read_ts: Option<u64>,
    },
    /// Nothing is to be written: release the read timestamp, and start a task that reports success.
    /// The commit is over.
    SpawnReport {
        /// The read timestamp to release, if any.
        read_ts: Option<u64>,
    },
    /// Release the timestamps and report. The commit is over.
    Finish {
        /// The commit timestamp to release, if any.
        commit_ts: Option<u64>,
        /// The read timestamp to release, if any.
        read_ts: Option<u64>,
        /// What the commit comes to.
        result: Result<(), WtmError<E, X>>,
    },
}

/// How far a commit has come.
pub enum Stage<D> {
    /// Nothing was asked yet.
    Start,
    /// The oracle was asked for a timestamp.
    Stamping,
    /// The pending writes manager was asked for its writes.
    Draining {
        /// The commit timestamp.
        commit_ts: u64,
        /// The writes that were displaced.
        duplicates: D,
    },
    /// The database was asked to apply the entries.
    Applying {
        /// The commit timestamp.
        commit_ts: u64,
    },
    /// The commit is over.
    Over,
}

/// A transaction that is being committed.
pub struct Commit<K, V, C, P, O> {
    txn: AsyncWtm<K, V, C, P, O>,
    stage: Stage<Vec<Entry<K, V>>>,
    in_task: bool,
}

/// What a [`Commit`] holds.
pub struct CommitView<K, V, C, P, O> {
    /// The transaction.
    pub txn: WtmView<K, V, C, P, O>,
    /// How far the commit has come.
    pub stage: Stage<Seq<Entry<K, V>>>,
    /// Whether a task of its own applies the entries.
    pub in_task: bool,
}

/// The entries that are written to the database at `commit_ts`: the pending writes in the order
/// in which they were handed out, then the displaced ones in the order in which they were
/// displaced, all of them at the commit timestamp.
pub open spec fn batch<K, V>(
    commit_ts: u64,
    writes: Seq<(K, EntryValue<V>)>,
    duplicates: Seq<Entry<K, V>>,
) -> Seq<Entry<K, V>> {
    Seq::new(
        writes.len() + duplicates.len(),
        |i: int|
            if i < writes.len() {
                Entry {
                    version: commit_ts,
                    data: Entry::spec_unsplit(writes[i].0, writes[i].1).data,
                }
            } else {
                Entry { version: commit_ts, data: duplicates[i - writes.len()].data }
            },
    )
}

/// Batches up the writes of a transaction at its commit timestamp.
pub fn batch_entries<K, V>(
    commit_ts: u64,
    writes: Vec<(K, EntryValue<V>)>,
    duplicates: Vec<Entry<K, V>>,
) -> (entries: Vec<Entry<K, V>>)
    ensures
        entries@ == batch(commit_ts, writes@, duplicates@),
{
    let mut entries: Vec<Entry<K, V>> = Vec::new();
    for write in it: writes
        invariant
            it.seq() == writes@,
            entries@ == batch(commit_ts, writes@.take(it.index() as int), Seq::empty()),
    {
        let (key, value) = write;
        let mut ent = Entry::unsplit(key, value);
        ent.version = commit_ts;
        entries.push(ent);
    }
    for duplicate in it: duplicates
        invariant
            it.seq() == duplicates@,
            entries@ == batch(commit_ts, writes@, duplicates@.take(it.index() as int)),
    {
        let mut ent = duplicate;
        ent.version = commit_ts;
        entries.push(ent);
    }
    entries
}

impl<K, V, C, P, O> View for Commit<K, V, C, P, O> {
    type V = CommitView<K, V, C, P, O>;

    closed spec fn view(&self) -> CommitView<K, V, C, P, O> {
        CommitView {
            txn: self.txn@,
            stage: match self.stage {
                Stage::Start => Stage::Start,
                Stage::Stamping => Stage::Stamping,
                Stage::Draining { commit_ts, duplicates } => Stage::Draining {
                    commit_ts,
                    duplicates: duplicates@,
                },
                Stage::Applying { commit_ts } => Stage::Applying { commit_ts },
                Stage::Over => Stage::Over,
            },
            in_task: self.in_task,
        }
    }
}

impl<K, V, C, P, O> CommitView<K, V, C, P, O> {
    /// What holds of a commit between events.
    pub open spec fn wf(self) -> bool {
        match self.stage {
            Stage::Start => self.txn.wf(),
            Stage::Stamping => self.txn.wf() && !self.txn.discarded,
            _ => true,
        }
    }

    /// Whether `event` is what the commit waits for. A commit timestamp is never zero.
    pub open spec fn awaits<X>(self, event: CommitEvent<K, V, C, X>) -> bool {
        match (self.stage, event) {
            (Stage::Start, CommitEvent::Counted { .. }) => true,
            (Stage::Stamping, CommitEvent::Stamped { outcome, .. }) => {
                outcome matches CreateCommitTimestampResult::Timestamp(ts) ==> ts != 0
            },
            (Stage::Draining { .. }, CommitEvent::Drained { .. }) => true,
            (Stage::Applying { .. }, CommitEvent::Applied { .. }) => true,
            _ => false,
        }
    }

    /// The commit after `event`, and the action that it asks for.
    pub open spec fn steps<E, X>(
        self,
        event: CommitEvent<K, V, C, X>,
        after: Self,
        action: CommitAction<K, V, C, P, E, X>,
    ) -> bool {
        match event {
            CommitEvent::Counted { empty } => self.starts(empty, after, action),
            CommitEvent::Stamped { done_read, outcome } => {
                self.is_stamped(done_read, outcome, after, action)
            },
            CommitEvent::Drained { writes } => self.is_drained(writes@, after, action),
            CommitEvent::Applied { result } => self.is_applied(result, after, action),
        }
    }

    /// A discarded transaction is refused. One without writes is discarded and reports success,
    /// here or in a task. Any other asks for a timestamp, and hands its conflict manager over.
    pub open spec fn starts<E, X>(
        self,
        empty: bool,
        after: Self,
        action: CommitAction<K, V, C, P, E, X>,
    ) -> bool {
        if self.txn.discarded {
            &&& action == CommitAction::<K, V, C, P, E, X>::Finish {
                commit_ts: None,
                read_ts: None,
                result: Err(WtmError::Transaction(TransactionError::Discard)),
            }
            &&& after == CommitView { stage: Stage::Over, ..self }
        } else if empty {
            &&& action == if self.in_task {
                CommitAction::<K, V, C, P, E, X>::SpawnReport {
                    read_ts: self.txn.closing_releases(),
                }
            } else {
                CommitAction::<K, V, C, P, E, X>::Finish {
                    commit_ts: None,
                    read_ts: self.txn.closing_releases(),
                    result: Ok(()),
                }
            }
            &&& after == CommitView { txn: self.txn.closed(), stage: Stage::Over, ..self }
        } else {
            &&& action == CommitAction::<K, V, C, P, E, X>::Stamp {
                done_read: self.txn.done_read,
                read_ts: self.txn.read_ts,
                conflict_manager: self.txn.conflict_manager,
            }
            &&& after == CommitView {
                txn: self.txn.asked(),
                stage: Stage::Stamping,
                ..self
            }
        }
    }

    /// A conflict discards the transaction, which gets its conflict manager back. A timestamp
    /// takes the pending and the displaced writes out of the transaction.
    pub open spec fn is_stamped<E, X>(
        self,
        done_read: bool,
        outcome: CreateCommitTimestampResult<C>,
        after: Self,
        action: CommitAction<K, V, C, P, E, X>,
    ) -> bool {
        let txn = self.txn.stamped(done_read, outcome);
        match outcome {
            CreateCommitTimestampResult::Conflict(_) => {
                &&& action == CommitAction::<K, V, C, P, E, X>::Finish {
                    commit_ts: None,
                    read_ts: txn.closing_releases(),
                    result: Err(WtmError::Transaction(TransactionError::Conflict)),
                }
                &&& after == CommitView { txn: txn.closed(), stage: Stage::Over, ..self }
            },
            CreateCommitTimestampResult::Timestamp(commit_ts) => {
                &&& action == CommitAction::<K, V, C, P, E, X>::Drain {
                    pending: self.txn.pending_writes->0,
                }
                &&& after == CommitView {
                    txn,
                    stage: Stage::Draining {
                        commit_ts,
                        duplicates: self.txn.duplicate_writes,
                    },
                    ..self
                }
            },
        }
    }

    /// The writes are batched up, to be applied here or in a task. With the latter the transaction
    /// is discarded.
    pub open spec fn is_drained<E, X>(
        self,
        writes: Seq<(K, EntryValue<V>)>,
        after: Self,
        action: CommitAction<K, V, C, P, E, X>,
    ) -> bool {
        let ts = self.stage->Draining_commit_ts;
        let expected = batch(ts, writes, self.stage->duplicates);
        if self.in_task {
            &&& action matches CommitAction::Spawn { entries, commit_ts, read_ts }
            &&& entries@ == expected
            &&& commit_ts == ts
            &&& read_ts == self.txn.closing_releases()
            &&& after == CommitView { txn: self.txn.closed(), stage: Stage::Over, ..self }
        } else {
            &&& action matches CommitAction::Apply { entries }
            &&& entries@ == expected
            &&& after == CommitView { stage: Stage::Applying { commit_ts: ts }, ..self }
        }
    }

    /// The commit timestamp is released and the transaction discarded, whether the writes were
    /// applied or not.
    pub open spec fn is_applied<E, X>(
        self,
        result: Result<(), X>,
        after: Self,
        action: CommitAction<K, V, C, P, E, X>,
    ) -> bool {
        &&& action == CommitAction::<K, V, C, P, E, X>::Finish {
            commit_ts: Some(self.stage->Applying_commit_ts),
            read_ts: self.txn.closing_releases(),
            result: match result {
                Ok(()) => Ok(()),
                Err(e) => Err(WtmError::Commit(e)),
            },
        }
        &&& after == CommitView { txn: self.txn.closed(), stage: Stage::Over, ..self }
    }
}

impl<K, V, C, P, O> WtmView<K, V, C, P, O> {
    /// The transaction after its conflict manager was handed to the oracle.
    pub open spec fn asked(self) -> Self {
        WtmView { conflict_manager: None, ..self }
    }

    /// The transaction after the oracle answered. With a conflict it gets its conflict manager back;
    /// with a timestamp the oracle keeps it, and the writes are taken out.
    pub open spec fn stamped(
        self,
        done_read: bool,
        outcome: CreateCommitTimestampResult<C>,
    ) -> Self {
        match outcome {
            CreateCommitTimestampResult::Conflict(conflict_manager) => WtmView {
                done_read,
                conflict_manager,
                ..self
            },
            CreateCommitTimestampResult::Timestamp(_) => WtmView {
                done_read,
                conflict_manager: None,
                pending_writes: None,
                duplicate_writes: Seq::empty(),
                ..self
            },
        }
    }
}

impl<K, V, C, P, O> AsyncWtm<K, V, C, P, O> {
    /// Takes the conflict manager out, for the oracle. The other two values are what the oracle is
    /// to be handed with it: whether the read timestamp was released, and the read timestamp.
    pub fn ask_timestamp(&mut self) -> (request: (bool, u64, Option<C>))
        ensures
            request == (
                old(self)@.done_read,
                old(self)@.read_ts,
                old(self)@.conflict_manager,
            ),
            final(self)@ == old(self)@.asked(),
    {
        let conflict_manager = self.conflict_manager.take();
        (self.done_read, self.read_ts, conflict_manager)
    }

    /// Follows the answer of the oracle. If there is a conflict, the updates are not to be sent to
    /// the database: the error is to be returned to the user. Otherwise the pending and the
    /// displaced writes are taken out, to be committed at the timestamp.
    pub(crate) fn take_writes<E>(
        &mut self,
        done_read: bool,
        outcome: CreateCommitTimestampResult<C>,
    ) -> (taken: Result<(u64, P, Vec<Entry<K, V>>), TransactionError<E>>)
        requires
            old(self)@.pending_writes is Some,
        ensures
            match outcome {
                CreateCommitTimestampResult::Conflict(_) => taken matches Err(
                    TransactionError::Conflict,
                ),
                CreateCommitTimestampResult::Timestamp(ts) => {
                    &&& taken matches Ok((commit_ts, pending, duplicates))
                    &&& commit_ts == ts
                    &&& Some(pending) == old(self)@.pending_writes
                    &&& duplicates@ == old(self)@.duplicate_writes
                },
            },
            final(self)@ == old(self)@.stamped(done_read, outcome),
    {
        self.done_read = done_read;
        match outcome {
            CreateCommitTimestampResult::Conflict(conflict_manager) => {
                self.conflict_manager = conflict_manager;
                Err(TransactionError::Conflict)
            },
            CreateCommitTimestampResult::Timestamp(commit_ts) => {
                self.conflict_manager = None;
                let pending_writes = self.pending_writes.take().unwrap();
                let mut duplicate_writes: Vec<Entry<K, V>> = Vec::new();
                core::mem::swap(&mut duplicate_writes, &mut self.duplicate_writes);
                Ok((commit_ts, pending_writes, duplicate_writes))
            },
        }
    }

    /// Commits the transaction, following these steps:
    ///
    /// 1. If there are no writes, return immediately.
    ///
    /// 2. Check if read rows were updated since txn started. If so, return `TransactionError::Conflict`.
    ///
    /// 3. If no conflict, generate a commit timestamp and update written rows' commit ts.
    ///
    /// 4. Batch up all writes, write them to database.
    pub fn commit(self) -> (commit: Commit<K, V, C, P, O>)
        requires
            self.wf(),
        ensures
            commit@ == (CommitView { txn: self@, stage: Stage::Start, in_task: false }),
            commit@.wf(),
    {
        Commit { txn: self, stage: Stage::Start, in_task: false }
    }

    /// Acts like [`commit`](AsyncWtm::commit), but the writes are sent to the database by a task of
    /// its own. Following these steps:
    ///
    /// 1. If there are no writes, return immediately, a new task will be spawned, and future will be invoked.
    ///
    /// 2. Check if read rows were updated since txn started. If so, return `TransactionError::Conflict`.
    ///
    /// 3. If no conflict, generate a commit timestamp and update written rows' commit ts.
    ///
    /// 4. Batch up all writes, write them to database.
    ///
    /// 5. Return immediately after checking for conflicts.
    /// If there is a conflict, an error will be returned immediately and the no task will be spawned
    /// run. If there are no conflicts, a task will be spawned and the future will be called in the
    /// background upon successful completion of writes or any error during write.
    pub fn commit_with_task(self) -> (commit: Commit<K, V, C, P, O>)
        requires
            self.wf(),
        ensures
            commit@ == (CommitView { txn: self@, stage: Stage::Start, in_task: true }),
            commit@.wf(),
    {
        Commit { txn: self, stage: Stage::Start, in_task: true }
    }
}

impl<K, V, C, P, O> AsyncWtm<K, V, C, P, O> where C: Cm<Key = K>, P: Pwm<Key = K, Value = V> {
    /// Follows the answer of the oracle, which was asked with what
    /// [`ask_timestamp`](AsyncWtm::ask_timestamp) returned, to the end: the entries to write to the
    /// database, with their commit timestamp, or the conflict.
    pub fn commit_entries(&mut self, done_read: bool, outcome: CreateCommitTimestampResult<C>) -> (
        committed: Result<(u64, Vec<Entry<K, V>>), TransactionError<P::Error>>)
        requires
            old(self)@.pending_writes is Some,
            outcome matches CreateCommitTimestampResult::Timestamp(ts) ==> ts != 0,
        ensures
            match outcome {
                CreateCommitTimestampResult::Conflict(_) => committed matches Err(
                    TransactionError::Conflict,
                ),
                CreateCommitTimestampResult::Timestamp(ts) => {
                    &&& committed matches Ok((commit_ts, entries))
                    &&& commit_ts == ts
                    &&& exists|writes: Seq<(K, EntryValue<V>)>|
                        {
                            &&& #[trigger] old(self)@.pending_writes->0.into_iter_gives(writes)
                            &&& entries@ == batch(ts, writes, old(self)@.duplicate_writes)
                        }
                },
            },
            final(self)@ == old(self)@.stamped(done_read, outcome),
    {
        match self.take_writes(done_read, outcome) {
            Err(e) => Err(e),
            Ok((commit_ts, pending, duplicates)) => {
                let writes = pending.into_iter();
                assert(old(self)@.pending_writes->0.into_iter_gives(writes@));
                Ok((commit_ts, batch_entries(commit_ts, writes, duplicates)))
            },
        }
    }
}

impl<K, V, C, P, O> Commit<K, V, C, P, O> {
    /// Returns the transaction.
    #[inline]
    pub fn txn(&self) -> (txn: &AsyncWtm<K, V, C, P, O>)
        ensures
            txn@ == self@.txn,
    {
        &self.txn
    }

    /// Takes the commit on by one event, and returns the action to perform.
    pub fn step<E, X>(&mut self, event: CommitEvent<K, V, C, X>) -> (action: CommitAction<
        K,
        V,
        C,
        P,
        E,
        X,
    >)
        requires
            old(self)@.wf(),
            old(self)@.awaits(event),
        ensures
            old(self)@.steps(event, final(self)@, action),
            final(self)@.wf(),
    {
        let mut stage: Stage<Vec<Entry<K, V>>> = Stage::Over;
        core::mem::swap(&mut stage, &mut self.stage);
        match (stage, event) {
            (Stage::Start, CommitEvent::Counted { empty }) => {
                if self.txn.is_discard() {
                    CommitAction::Finish {
                        commit_ts: None,
                        read_ts: None,
                        result: Err(WtmError::transaction(TransactionError::Discard)),
                    }
                } else if empty {
                    // Nothing to commit
                    let read_ts = self.txn.close();
                    if self.in_task {
                        CommitAction::SpawnReport { read_ts }
                    } else {
                        CommitAction::Finish { commit_ts: None, read_ts, result: Ok(()) }
                    }
                } else {
                    self.stage = Stage::Stamping;
                    let (done_read, read_ts, conflict_manager) = self.txn.ask_timestamp();
                    CommitAction::Stamp { done_read, read_ts, conflict_manager }
                }
            },
            (Stage::Stamping, CommitEvent::Stamped { done_read, outcome }) => {
                match self.txn.take_writes(done_read, outcome) {
                    Err(e) => CommitAction::Finish {
                        commit_ts: None,
                        read_ts: self.txn.close(),
                        result: Err(WtmError::transaction(e)),
                    },
                    Ok((commit_ts, pending, duplicates)) => {
                        self.stage = Stage::Draining { commit_ts, duplicates };
                        CommitAction::Drain { pending }
                    },
                }
            },
            (Stage::Draining { commit_ts, duplicates }, CommitEvent::Drained { writes }) => {
                let entries = batch_entries(commit_ts, writes, duplicates);
                if self.in_task {
                    CommitAction::Spawn { entries, commit_ts, read_ts: self.txn.close() }
                } else {
                    self.stage = Stage::Applying { commit_ts };
                    CommitAction::Apply { entries }
                }
            },
            (Stage::Applying { commit_ts }, CommitEvent::Applied { result }) => {
                CommitAction::Finish {
                    commit_ts: Some(commit_ts),
                    read_ts: self.txn.close(),
                    result: match result {
                        Ok(()) => Ok(()),
                        Err(e) => Err(WtmError::commit(e)),
                    },
                }
            },
            // Not what the commit waits for.
            _ => vstd::pervasive::unreached(),
        }
    }
}

} // verus!
