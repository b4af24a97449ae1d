//! The write transaction.
use crate::error::TransactionError;
use crate::modify::settle_insert;
use crate::sync::{Cm, CmComparable, CmEquivalent, Pwm, PwmComparable, PwmEquivalent};
use crate::types::{Entry, EntryData, EntryDataRef, EntryRef, EntryValue};
use core::borrow::Borrow;
use core::hash::Hash;
use vstd::prelude::*;

verus! {

/// A marker used to mark the keys that are read.
pub struct Marker<'a, C> {
    /// The conflict manager that the keys are recorded in.
    pub marker: &'a mut C,
}

impl<'a, C: Cm> Marker<'a, C> {
    /// Marks a key is operated.
    pub fn mark(&mut self, k: &C::Key)
        ensures
            old(self).marker.mark_read_makes(k, final(self).marker),
            *final(final(self).marker) == *final(old(self).marker),
    {
        self.marker.mark_read(k);
    }
}

/// AsyncWtm is used to perform writes to the database.
///
/// `C` is the conflict manager, `P` the pending writes manager, and `O` the handle of the oracle
/// that hands out timestamps. The transaction holds the handle and does not use it.
pub struct AsyncWtm<K, V, C, P, O> {
    pub(crate) read_ts: u64,
    pub(crate) size: u64,
    pub(crate) count: u64,
    pub(crate) orc: O,
    // Contains the keys read and written, for conflict detection.
    pub(crate) conflict_manager: Option<C>,
    // Stores any writes done by the transaction.
    pub(crate) pending_writes: Option<P>,
    // Used in managed mode to store duplicate entries.
    pub(crate) duplicate_writes: Vec<Entry<K, V>>,
    pub(crate) discarded: bool,
    pub(crate) done_read: bool,
}

/// What an [`AsyncWtm`] holds.
pub struct WtmView<K, V, C, P, O> {
    /// The timestamp that the transaction reads at.
    pub read_ts: u64,
    /// The estimated size of the writes that were accepted.
    pub size: u64,
    /// The number of writes that were accepted.
    pub count: u64,
    /// The handle of the oracle.
    pub orc: O,
    /// The conflict manager, unless conflict detection is off.
    pub conflict_manager: Option<C>,
    /// The pending writes manager, until the commit takes it.
    pub pending_writes: Option<P>,
    /// The writes that were displaced by one of another version.
    pub duplicate_writes: Seq<Entry<K, V>>,
    /// Whether the transaction was discarded.
    pub discarded: bool,
    /// Whether the read timestamp was released.
    pub done_read: bool,
}

/// What a lookup in the pending writes settles.
#[derive(Debug, PartialEq, Eq)]
pub enum Lookup<T> {
    /// The pending writes answer the question.
    Pending(T),
    /// The key has no pending write: the database is to be read, and the read recorded.
    Missing,
}

impl<K, V, C, P, O> View for AsyncWtm<K, V, C, P, O> {
    type V = WtmView<K, V, C, P, O>;

    open(crate) spec fn view(&self) -> WtmView<K, V, C, P, O> {
        WtmView {
            read_ts: self.read_ts,
            size: self.size,
            count: self.count,
            orc: self.orc,
            conflict_manager: self.conflict_manager,
            pending_writes: self.pending_writes,
            duplicate_writes: self.duplicate_writes@,
            discarded: self.discarded,
            done_read: self.done_read,
        }
    }
}

/// What `settle_contains` answers to what the pending writes manager found.
pub open spec fn contains_settled<V, E>(found: Result<Option<&EntryValue<V>>, E>) -> Result<
    Lookup<bool>,
    TransactionError<E>,
> {
    match found {
        Err(e) => Err(TransactionError::Pwm(e)),
        Ok(None) => Ok(Lookup::Missing),
        Ok(Some(ent)) => Ok(Lookup::Pending(ent.value is Some)),
    }
}

/// What `settle_get` answers to what the pending writes manager found.
pub open spec fn get_settled<'a, K, V, E>(
    found: Result<Option<(&'a K, &'a EntryValue<V>)>, E>,
) -> Result<Lookup<Option<EntryRef<'a, K, V>>>, TransactionError<E>> {
    match found {
        Err(e) => Err(TransactionError::Pwm(e)),
        Ok(None) => Ok(Lookup::Missing),
        Ok(Some((key, ent))) => Ok(
            Lookup::Pending(
                match &ent.value {
                    Some(value) => Some(
                        EntryRef {
                            data: EntryDataRef::Insert { key, value },
                            version: ent.version,
                        },
                    ),
                    None => None,
                },
            ),
        ),
    }
}

/// What was found, with the key that it was found at.
pub open spec fn found_at<'a, K, V, E>(
    key: &'a K,
    found: Result<Option<&'a EntryValue<V>>, E>,
) -> Result<Option<(&'a K, &'a EntryValue<V>)>, E> {
    match found {
        Err(e) => Err(e),
        Ok(None) => Ok(None),
        Ok(Some(ent)) => Ok(Some((key, ent))),
    }
}

/// What a membership test answers to what the pending writes manager found.
///
/// - `Missing`: the key is not in the pending writes.
/// - `Pending(true)`: the key is in the pending writes.
/// - `Pending(false)`: the key is in the pending writes, but as a remove entry.
pub fn settle_contains<V, E>(found: Result<Option<&EntryValue<V>>, E>) -> (settled: Result<
    Lookup<bool>,
    TransactionError<E>,
>)
    ensures
        settled == contains_settled(found),
{
    match found {
        Err(e) => Err(TransactionError::pending(e)),
        Ok(None) => Ok(Lookup::Missing),
        // If the value is None, it means that the key is removed.
        Ok(Some(ent)) => Ok(Lookup::Pending(ent.value.is_some())),
    }
}

/// What a read answers to what the pending writes manager found. A remove entry reads as nothing.
pub fn settle_get<'a, K, V, E>(found: Result<Option<(&'a K, &'a EntryValue<V>)>, E>) -> (settled:
    Result<Lookup<Option<EntryRef<'a, K, V>>>, TransactionError<E>>)
    ensures
        settled == get_settled(found),
{
    match found {
        Err(e) => Err(TransactionError::Pwm(e)),
        Ok(None) => Ok(Lookup::Missing),
        Ok(Some((key, ent))) => match &ent.value {
            // If the value is None, it means that the key is removed.
            None => Ok(Lookup::Pending(None)),
            // Fulfill from buffer.
            Some(value) => Ok(
                Lookup::Pending(
                    Some(
                        EntryRef {
                            data: EntryDataRef::Insert { key, value },
                            version: ent.version,
                        },
                    ),
                ),
            ),
        },
    }
}

impl<K, V, C, P, O> WtmView<K, V, C, P, O> {
    /// What holds of a transaction between operations: its pending writes are there while it is
    /// open, and the number of writes stays below every limit.
    pub open spec fn wf(self) -> bool {
        &&& !self.discarded ==> self.pending_writes is Some
        &&& self.count < u64::MAX
    }

    /// The transaction after a read. One that found no pending write is recorded in the conflict
    /// manager, as `mark` says; any other leaves everything as it was.
    pub open spec fn read_recorded(
        self,
        missing: bool,
        mark: spec_fn(C, C) -> bool,
        after: Self,
    ) -> bool {
        if missing {
            self.marked(mark, after)
        } else {
            after == self
        }
    }

    /// The transaction after a key was recorded in the conflict manager, if there is one.
    pub open spec fn marked(self, mark: spec_fn(C, C) -> bool, after: Self) -> bool {
        match self.conflict_manager {
            None => after == self,
            Some(cm) => {
                &&& after.conflict_manager is Some
                &&& mark(cm, after.conflict_manager->0)
                &&& after == WtmView { conflict_manager: after.conflict_manager, ..self }
            },
        }
    }

    /// The entry that inserts a value: it carries the read timestamp until it is committed.
    pub open spec fn insertion(self, key: K, value: V) -> Entry<K, V> {
        Entry { data: EntryData::Insert { key, value }, version: self.read_ts }
    }

    /// The entry that removes a key: like one that inserts, it carries the read timestamp until it
    /// is committed, so that either overwrites the other.
    pub open spec fn removal(self, key: K) -> Entry<K, V> {
        Entry { data: EntryData::Remove(key), version: self.read_ts }
    }

    /// Whether a write of the estimated size `size` stays below both limits.
    pub open spec fn fits(self, size: u64, max_entries: u64, max_size: u64) -> bool {
        &&& self.count + 1 < max_entries
        &&& self.size + size < max_size
    }

    /// The transaction after a write of the estimated size `size` was counted in.
    pub open spec fn reserved(self, size: u64) -> Self {
        WtmView { count: (self.count + 1) as u64, size: (self.size + size) as u64, ..self }
    }

    /// The transaction after `removed` made room for a write of `version`. A write of another
    /// version is kept as a duplicate; one of the same version is overwritten.
    pub open spec fn displaced(self, version: u64, removed: Option<(K, EntryValue<V>)>) -> Self {
        match removed {
            Some((key, value)) => if value.version != version {
                WtmView {
                    duplicate_writes: self.duplicate_writes.push(Entry::spec_unsplit(key, value)),
                    ..self
                }
            } else {
                self
            },
            None => self,
        }
    }

    /// The transaction after it was discarded.
    pub open spec fn closed(self) -> Self {
        if self.discarded {
            self
        } else {
            WtmView { discarded: true, done_read: true, ..self }
        }
    }

    /// The read timestamp, if discarding the transaction is what releases it.
    pub open spec fn closing_releases(self) -> Option<u64> {
        if self.discarded || self.done_read {
            None
        } else {
            Some(self.read_ts)
        }
    }

    /// A membership test of an open transaction, whose pending writes manager answered `found`. A
    /// read of a missing key is recorded as `mark` says.
    pub open spec fn tests_key<E>(
        self,
        found: Result<Option<&EntryValue<V>>, E>,
        mark: spec_fn(C, C) -> bool,
        after: Self,
        answer: Result<Option<bool>, TransactionError<E>>,
    ) -> bool {
        &&& answer == (match contains_settled(found) {
            Err(e) => Err(e),
            Ok(Lookup::Missing) => Ok(None),
            Ok(Lookup::Pending(there)) => Ok(Some(there)),
        })
        &&& self.read_recorded(found matches Ok(None), mark, after)
    }

    /// A read of an open transaction, whose pending writes manager answered `found`. A read of a
    /// missing key is recorded as `mark` says.
    pub open spec fn reads_key<'a, E>(
        self,
        found: Result<Option<(&'a K, &'a EntryValue<V>)>, E>,
        mark: spec_fn(C, C) -> bool,
        after: Self,
        answer: Result<Option<EntryRef<'a, K, V>>, TransactionError<E>>,
    ) -> bool {
        &&& answer == (match get_settled(found) {
            Err(e) => Err(e),
            Ok(Lookup::Missing) => Ok(None),
            Ok(Lookup::Pending(entry)) => Ok(entry),
        })
        &&& self.read_recorded(found matches Ok(None), mark, after)
    }
}

impl<K, V, C, P, O> WtmView<K, V, C, P, O> where C: Cm<Key = K>, P: Pwm<Key = K, Value = V> {
    /// A write of `ent`. A discarded transaction refuses it, so does one whose pending writes
    /// manager finds it invalid, and so does one that it would make too large; each leaves the
    /// transaction as it was. Any other is counted in and taken in.
    pub open spec fn modifies(
        self,
        ent: Entry<K, V>,
        after: Self,
        answer: Result<(), TransactionError<P::Error>>,
    ) -> bool {
        if self.discarded {
            &&& answer matches Err(TransactionError::Discard)
            &&& after == self
        } else {
            exists|verdict: Result<(), P::Error>|
                {
                    &&& #[trigger] self.pending_writes->0.validate_entry_gives(&ent, verdict)
                    &&& match verdict {
                        Err(e) => answer == Err::<(), _>(TransactionError::Pwm(e)) && after == self,
                        Ok(()) => self.admits(ent, after, answer),
                    }
                }
        }
    }

    /// What becomes of a valid write of `ent`.
    pub open spec fn admits(
        self,
        ent: Entry<K, V>,
        after: Self,
        answer: Result<(), TransactionError<P::Error>>,
    ) -> bool {
        let pending = self.pending_writes->0;
        exists|size: u64, max_entries: u64, max_size: u64|
            {
                &&& #[trigger] pending.estimate_size_gives(&ent, size)
                &&& #[trigger] pending.max_batch_entries_gives(max_entries)
                &&& #[trigger] pending.max_batch_size_gives(max_size)
                &&& if self.fits(size, max_entries, max_size) {
                    self.reserved(size).takes_in(ent, after, answer)
                } else {
                    (answer matches Err(TransactionError::LargeTxn)) && after == self
                }
            }
    }

    /// The transaction after `key` was recorded as written, if conflict detection is on.
    pub open spec fn conflict_recorded(self, key: K, after: Self) -> bool {
        self.marked(|c: C, c2: C| c.mark_conflict_makes(&key, &c2), after)
    }

    /// What becomes of a write of `ent` that was counted in: its key is recorded in the conflict
    /// manager, the pending write of that key is removed and, if it has another version, kept as
    /// a duplicate, and `ent` is inserted.
    pub open spec fn takes_in(
        self,
        ent: Entry<K, V>,
        after: Self,
        answer: Result<(), TransactionError<P::Error>>,
    ) -> bool {
        let key = ent.spec_split().0;
        exists|recorded: Self|
            {
                &&& #[trigger] self.conflict_recorded(key, recorded)
                &&& recorded.replaces(ent, after, answer)
            }
    }

    /// What becomes of a write of `ent` whose key was recorded.
    pub open spec fn replaces(
        self,
        ent: Entry<K, V>,
        after: Self,
        answer: Result<(), TransactionError<P::Error>>,
    ) -> bool {
        let (key, value) = ent.spec_split();
        exists|
            cleared: P,
            removed: Result<Option<(K, EntryValue<V>)>, P::Error>,
        |
            {
                &&& #[trigger] self.pending_writes->0.remove_entry_makes(&key, &cleared, removed)
                &&& match removed {
                    Err(e) => {
                        &&& answer == Err::<(), _>(TransactionError::Pwm(e))
                        &&& after == WtmView { pending_writes: Some(cleared), ..self }
                    },
                    Ok(displaced) => exists|filled: P, inserted: Result<(), P::Error>|
                        {
                            &&& #[trigger] cleared.insert_makes(key, value, &filled, inserted)
                            &&& answer == (match inserted {
                                Ok(()) => Ok(()),
                                Err(e) => Err(TransactionError::Pwm(e)),
                            })
                            &&& after == WtmView {
                                pending_writes: Some(filled),
                                ..self.displaced(ent.version, displaced)
                            }
                        },
                }
            }
    }
}

impl<K, V, C, P, O> AsyncWtm<K, V, C, P, O> {
    /// Whether the transaction is in a state that operations leave it in.
    pub open spec fn wf(&self) -> bool {
        self@.wf()
    }

    /// Starts a transaction that reads at `read_ts`. Without a conflict manager, conflict
    /// detection is off.
    pub fn new(read_ts: u64, orc: O, conflict_manager: Option<C>, pending_writes: P) -> (txn: Self)
        ensures
            txn.wf(),
            txn@ == (WtmView {
                read_ts,
                size: 0,
                count: 0,
                orc,
                conflict_manager,
                pending_writes: Some(pending_writes),
                duplicate_writes: Seq::<Entry<K, V>>::empty(),
                discarded: false,
                done_read: false,
            }),
    {
        AsyncWtm {
            read_ts,
            size: 0,
            count: 0,
            orc,
            conflict_manager,
            pending_writes: Some(pending_writes),
            duplicate_writes: Vec::new(),
            discarded: false,
            done_read: false,
        }
    }

    /// Returns the version of this read transaction.
    #[inline]
    pub fn version(&self) -> (version: u64)
        ensures
            version == self@.read_ts,
    {
        self.read_ts
    }

    /// Returns the handle of the oracle.
    #[inline]
    pub fn orc(&self) -> (orc: &O)
        ensures
            *orc == self@.orc,
    {
        &self.orc
    }

    /// Returns true if the transaction is discarded.
    #[inline]
    pub fn is_discard(&self) -> (discarded: bool)
        ensures
            discarded == self@.discarded,
    {
        self.discarded
    }

    /// Returns the pending writes manager.
    #[inline]
    pub fn pwm<E>(&self) -> (pwm: Result<&P, TransactionError<E>>)
        ensures
            match pwm {
                Ok(p) => !self@.discarded && self@.pending_writes == Some(*p),
                Err(e) => e is Discard && (self@.discarded || self@.pending_writes is None),
            },
    {
        if self.discarded {
            return Err(TransactionError::Discard);
        }
        self.pending_writes.as_ref().ok_or(TransactionError::Discard)
    }

    /// Returns the conflict manager.
    #[inline]
    pub fn cm<E>(&self) -> (cm: Result<&C, TransactionError<E>>)
        ensures
            match cm {
                Ok(c) => !self@.discarded && self@.conflict_manager == Some(*c),
                Err(e) => e is Discard && (self@.discarded || self@.conflict_manager is None),
            },
    {
        if self.discarded {
            return Err(TransactionError::Discard);
        }
        self.conflict_manager.as_ref().ok_or(TransactionError::Discard)
    }

    /// This method is used to create a marker for the keys that are operated.
    /// It must be used to mark keys when end user is implementing iterators to
    /// make sure the transaction manager works correctly.
    pub fn marker<E>(&mut self) -> (marker: Result<Option<Marker<'_, C>>, TransactionError<E>>)
        ensures
            match marker {
                Err(e) => e is Discard && old(self)@.discarded && final(self)@ == old(self)@,
                Ok(None) => {
                    &&& !old(self)@.discarded
                    &&& old(self)@.conflict_manager is None
                    &&& final(self)@ == old(self)@
                },
                Ok(Some(m)) => {
                    &&& !old(self)@.discarded
                    &&& old(self)@.conflict_manager == Some(*m.marker)
                    &&& final(self)@ == (WtmView {
                        conflict_manager: Some(*final(m.marker)),
                        ..old(self)@
                    })
                },
            },
    {
        if self.is_discard() {
            return Err(TransactionError::Discard);
        }
        Ok(
            match self.conflict_manager.as_mut() {
                Some(marker) => Some(Marker { marker }),
                None => None,
            },
        )
    }

    /// Returns a marker for the keys that are operated and the pending writes manager.
    ///
    /// As Rust's borrow checker does not allow to borrow mutable marker and the immutable pending
    /// writes manager at the same time, this method is used to solve this problem.
    pub fn marker_with_pm<E>(&mut self) -> (parts: Result<
        (Option<Marker<'_, C>>, &P),
        TransactionError<E>,
    >)
        requires
            old(self).wf(),
        ensures
            match parts {
                Err(e) => e is Discard && old(self)@.discarded && final(self)@ == old(self)@,
                Ok((None, p)) => {
                    &&& !old(self)@.discarded
                    &&& old(self)@.conflict_manager is None
                    &&& old(self)@.pending_writes == Some(*p)
                    &&& final(self)@ == old(self)@
                },
                Ok((Some(m), p)) => {
                    &&& !old(self)@.discarded
                    &&& old(self)@.conflict_manager == Some(*m.marker)
                    &&& old(self)@.pending_writes == Some(*p)
                    &&& final(self)@ == (WtmView {
                        conflict_manager: Some(*final(m.marker)),
                        ..old(self)@
                    })
                },
            },
    {
        if self.is_discard() {
            return Err(TransactionError::Discard);
        }
        let marker = match self.conflict_manager.as_mut() {
            Some(marker) => Some(Marker { marker }),
            None => None,
        };
        Ok((marker, self.pending_writes.as_ref().unwrap()))
    }

    /// The two managers of an open transaction, to be written to.
    pub fn managers<E>(&mut self) -> (managers: Result<
        (&mut P, Option<&mut C>),
        TransactionError<E>,
    >)
        requires
            old(self).wf(),
        ensures
            match managers {
                Err(e) => e is Discard && old(self)@.discarded && final(self)@ == old(self)@,
                Ok((p, None)) => {
                    &&& !old(self)@.discarded
                    &&& old(self)@.conflict_manager is None
                    &&& old(self)@.pending_writes == Some(*p)
                    &&& final(self)@ == (WtmView {
                        pending_writes: Some(*final(p)),
                        ..old(self)@
                    })
                },
                Ok((p, Some(c))) => {
                    &&& !old(self)@.discarded
                    &&& old(self)@.conflict_manager == Some(*c)
                    &&& old(self)@.pending_writes == Some(*p)
                    &&& final(self)@ == (WtmView {
                        pending_writes: Some(*final(p)),
                        conflict_manager: Some(*final(c)),
                        ..old(self)@
                    })
                },
            },
    {
        if self.discarded {
            return Err(TransactionError::Discard);
        }
        let conflict_manager = self.conflict_manager.as_mut();
        Ok((self.pending_writes.as_mut().unwrap(), conflict_manager))
    }

    /// The conflict manager, to be written to, discarded or not.
    pub fn cm_mut(&mut self) -> (cm: Option<&mut C>)
        ensures
            match cm {
                None => old(self)@.conflict_manager is None && final(self)@ == old(self)@,
                Some(c) => {
                    &&& old(self)@.conflict_manager == Some(*c)
                    &&& final(self)@ == (WtmView {
                        conflict_manager: Some(*final(c)),
                        ..old(self)@
                    })
                },
            },
    {
        self.conflict_manager.as_mut()
    }

    /// The entry that inserts a value: it carries the read timestamp until it is committed.
    pub fn insertion(&self, key: K, value: V) -> (ent: Entry<K, V>)
        ensures
            ent == self@.insertion(key, value),
    {
        Entry { data: EntryData::Insert { key, value }, version: self.read_ts }
    }

    /// The entry that removes a key: like one that inserts, it carries the read timestamp until it
    /// is committed, so that either overwrites the other.
    pub fn removal(&self, key: K) -> (ent: Entry<K, V>)
        ensures
            ent == self@.removal(key),
    {
        Entry { data: EntryData::Remove(key), version: self.read_ts }
    }

    /// Counts a write in, whose size the pending writes manager estimates at `size`, unless that
    /// would reach one of the manager's limits. A total that exceeds 64 bits reaches every limit.
    pub(crate) fn reserve<E>(&mut self, size: u64, max_entries: u64, max_size: u64) -> (answer: Result<
        (),
        TransactionError<E>,
    >)
        requires
            old(self).wf(),
        ensures
            if old(self)@.fits(size, max_entries, max_size) {
                answer is Ok && final(self)@ == old(self)@.reserved(size)
            } else {
                (answer matches Err(TransactionError::LargeTxn)) && final(self)@ == old(self)@
            },
            final(self).wf(),
    {
        let cnt = self.count + 1;
        // Extra bytes for the version in key.
        match self.size.checked_add(size) {
            Some(total) => if cnt >= max_entries || total >= max_size {
                Err(TransactionError::LargeTxn)
            } else {
                self.count = cnt;
                self.size = total;
                Ok(())
            },
            None => Err(TransactionError::LargeTxn),
        }
    }

    /// Keeps the pending write that made room for one of `version`.
    ///
    /// If a duplicate entry was inserted in managed mode, move it to the duplicate writes slice.
    /// Add the entry to duplicate writes only if both the entries have different versions. For
    /// same versions, the existing entry is overwritten.
    pub(crate) fn displace(&mut self, version: u64, removed: Option<(K, EntryValue<V>)>)
        ensures
            final(self)@ == old(self)@.displaced(version, removed),
    {
        if let Some((old_key, old_value)) = removed {
            if old_value.version != version {
                self.duplicate_writes.push(Entry::unsplit(old_key, old_value));
            }
        }
    }

    /// Discards the transaction where it stands, and returns the read timestamp that the oracle is
    /// to be told of, if it was not told before.
    ///
    /// NOTE: If any operations are run on a discarded transaction, [`TransactionError::Discard`] is
    /// returned.
    pub fn close(&mut self) -> (released: Option<u64>)
        ensures
            final(self)@ == old(self)@.closed(),
            released == old(self)@.closing_releases(),
            old(self).wf() ==> final(self).wf(),
    {
        if self.discarded {
            return None;
        }
        self.discarded = true;
        self.done_read()
    }

    /// Releases the read timestamp, unless it was released before.
    fn done_read(&mut self) -> (released: Option<u64>)
        ensures
            final(self)@ == (WtmView { done_read: true, ..old(self)@ }),
            released == (if old(self)@.done_read {
                None
            } else {
                Some(old(self)@.read_ts)
            }),
    {
        if !self.done_read {
            self.done_read = true;
            Some(self.read_ts)
        } else {
            None
        }
    }

    /// Discards a created transaction. This method is very important and must be called. `commit*`
    /// methods calls this internally. Returns the read timestamp that the oracle is to be told of,
    /// if it was not told before.
    pub fn discard(self) -> (released: Option<u64>)
        ensures
            released == self@.closing_releases(),
    {
        let mut txn = self;
        txn.close()
    }
}

impl<K, V, C, P, O> AsyncWtm<K, V, C, P, O> where C: Cm<Key = K>, P: Pwm<Key = K, Value = V> {
    /// Insert a key-value pair to the transaction.
    pub fn insert(&mut self, key: K, value: V) -> (answer: Result<(), TransactionError<P::Error>>)
        requires
            old(self).wf(),
        ensures
            old(self)@.modifies(old(self)@.insertion(key, value), final(self)@, answer),
            final(self).wf(),
    {
        self.insert_with_in(key, value)
    }

    /// Removes a key.
    ///
    /// This is done by adding a delete marker for the key at commit timestamp.  Any
    /// reads happening before this timestamp would be unaffected. Any reads after
    /// this commit would see the deletion.
    pub fn remove(&mut self, key: K) -> (answer: Result<(), TransactionError<P::Error>>)
        requires
            old(self).wf(),
        ensures
            old(self)@.modifies(old(self)@.removal(key), final(self)@, answer),
            final(self).wf(),
    {
        let ent = self.removal(key);
        self.modify(ent)
    }

    fn insert_with_in(&mut self, key: K, value: V) -> (answer: Result<
        (),
        TransactionError<P::Error>,
    >)
        requires
            old(self).wf(),
        ensures
            old(self)@.modifies(old(self)@.insertion(key, value), final(self)@, answer),
            final(self).wf(),
    {
        let ent = self.insertion(key, value);
        self.modify(ent)
    }

    fn modify(&mut self, ent: Entry<K, V>) -> (answer: Result<(), TransactionError<P::Error>>)
        requires
            old(self).wf(),
        ensures
            old(self)@.modifies(ent, final(self)@, answer),
            final(self).wf(),
    {
        let planned = match self.plan_write(ent) {
            Ok(planned) => planned,
            Err(e) => return Err(e),
        };
        let pending_writes = self.pending_writes.as_ref().unwrap();
        let verdict = pending_writes.validate_entry(planned.entry());
        let valid = match planned.validated(verdict) {
            Ok(valid) => valid,
            Err(e) => return Err(e),
        };
        let size = pending_writes.estimate_size(valid.entry());
        let max_entries = pending_writes.max_batch_entries();
        let max_size = pending_writes.max_batch_size();
        let counted = match valid.counted(self, size, max_entries, max_size) {
            Ok(counted) => counted,
            Err(e) => return Err(e),
        };
        let ghost before = self@;
        // The conflict_manager is used for conflict detection. If conflict detection
        // is disabled, we don't need to store key hashes in the conflict_manager.
        self.mark_conflict(counted.key());
        assert(before.conflict_recorded(ent.spec_split().0, self@));
        let recorded = counted.recorded();
        let removed = self.pending_writes.as_mut().unwrap().remove_entry(recorded.key());
        let (key, value) = match recorded.cleared(self, removed) {
            Ok(parts) => parts,
            Err(e) => return Err(e),
        };
        settle_insert(self.pending_writes.as_mut().unwrap().insert(key, value))
    }

    /// Marks a key is conflict.
    pub fn mark_conflict(&mut self, k: &K)
        ensures
            old(self)@.marked(|c: C, c2: C| c.mark_conflict_makes(k, &c2), final(self)@),
    {
        if let Some(conflict_manager) = &mut self.conflict_manager {
            conflict_manager.mark_conflict(k);
        }
    }

    /// Marks a key is read.
    pub fn mark_read(&mut self, k: &K)
        ensures
            old(self)@.marked(|c: C, c2: C| c.mark_read_makes(k, &c2), final(self)@),
    {
        if let Some(conflict_manager) = &mut self.conflict_manager {
            conflict_manager.mark_read(k);
        }
    }

    /// Returns `true` if the pending writes contains the key.
    ///
    /// - `Ok(None)`: means the key is not in the pending writes, the end user can read the key from the database.
    /// - `Ok(Some(true))`: means the key is in the pending writes.
    /// - `Ok(Some(false))`: means the key is in the pending writes and but is a remove entry.
    pub fn contains_key(&mut self, key: &K) -> (answer: Result<
        Option<bool>,
        TransactionError<P::Error>,
    >)
        requires
            old(self).wf(),
        ensures
            old(self)@.discarded ==> {
                &&& answer matches Err(TransactionError::Discard)
                &&& final(self)@ == old(self)@
            },
            !old(self)@.discarded ==> exists|found: Result<Option<&EntryValue<V>>, P::Error>|
                {
                    &&& #[trigger] old(self)@.pending_writes->0.get_gives(key, found)
                    &&& old(self)@.tests_key(
                        found,
                        |c: C, c2: C| c.mark_read_makes(key, &c2),
                        final(self)@,
                        answer,
                    )
                },
            final(self).wf(),
    {
        if self.discarded {
            return Err(TransactionError::Discard);
        }
        let settled = settle_contains(self.pending_writes.as_ref().unwrap().get(key));
        match settled {
            Err(e) => Err(e),
            Ok(Lookup::Pending(there)) => Ok(Some(there)),
            Ok(Lookup::Missing) => {
                // Track reads. No need to track read if txn serviced it internally.
                self.mark_read(key);
                Ok(None)
            },
        }
    }

    /// Looks for the key in the pending writes, if such key is not in the pending writes,
    /// the end user can read the key from the database.
    pub fn get<'a, 'b: 'a>(&'a mut self, key: &'b K) -> (answer: Result<
        Option<EntryRef<'a, K, V>>,
        TransactionError<P::Error>,
    >)
        requires
            old(self).wf(),
        ensures
            old(self)@.discarded ==> {
                &&& answer matches Err(TransactionError::Discard)
                &&& final(self)@ == old(self)@
            },
            !old(self)@.discarded ==> exists|found: Result<Option<&EntryValue<V>>, P::Error>|
                {
                    &&& #[trigger] old(self)@.pending_writes->0.get_gives(key, found)
                    &&& old(self)@.reads_key(
                        found_at(key, found),
                        |c: C, c2: C| c.mark_read_makes(key, &c2),
                        final(self)@,
                        answer,
                    )
                },
            final(self).wf(),
    {
        if self.discarded {
            return Err(TransactionError::Discard);
        }
        let found = match self.pending_writes.as_ref().unwrap().get(key) {
            Err(e) => Err(e),
            Ok(None) => Ok(None),
            Ok(Some(ent)) => Ok(Some((key, ent))),
        };
        match settle_get(found) {
            Err(e) => Err(e),
            Ok(Lookup::Pending(entry)) => Ok(entry),
            Ok(Lookup::Missing) => {
                // Track reads. No need to track read if txn serviced it internally.
                if let Some(conflict_manager) = &mut self.conflict_manager {
                    conflict_manager.mark_read(key);
                }
                Ok(None)
            },
        }
    }
}

impl<K, V, C, P, O> AsyncWtm<K, V, C, P, O> where
    C: CmEquivalent<Key = K>,
    P: Pwm<Key = K, Value = V>,
 {
    /// Marks a key is read.
    pub fn mark_read_equivalent<Q>(&mut self, k: &Q) where K: Borrow<Q>, Q: ?Sized + Eq + Hash
        ensures
            old(self)@.marked(|c: C, c2: C| c.mark_read_equivalent_makes(k, &c2), final(self)@),
    {
        if let Some(conflict_manager) = &mut self.conflict_manager {
            conflict_manager.mark_read_equivalent(k);
        }
    }

    /// Marks a key is conflict.
    pub fn mark_conflict_equivalent<Q>(&mut self, k: &Q) where K: Borrow<Q>, Q: ?Sized + Eq + Hash
        ensures
            old(self)@.marked(|c: C, c2: C| c.mark_conflict_equivalent_makes(k, &c2), final(self)@),
    {
        if let Some(conflict_manager) = &mut self.conflict_manager {
            conflict_manager.mark_conflict_equivalent(k);
        }
    }
}

impl<K, V, C, P, O> AsyncWtm<K, V, C, P, O> where
    C: CmEquivalent<Key = K>,
    P: PwmEquivalent<Key = K, Value = V>,
 {
    /// Returns `true` if the pending writes contains the key.
    ///
    /// - `Ok(None)`: means the key is not in the pending writes, the end user can read the key from the database.
    /// - `Ok(Some(true))`: means the key is in the pending writes.
    /// - `Ok(Some(false))`: means the key is in the pending writes and but is a remove entry.
    pub fn contains_key_equivalent<'a, 'b: 'a, Q>(&'a mut self, key: &'b Q) -> (answer: Result<
        Option<bool>,
        TransactionError<P::Error>,
    >) where K: Borrow<Q>, Q: ?Sized + Eq + Hash
        requires
            old(self).wf(),
        ensures
            old(self)@.discarded ==> {
                &&& answer matches Err(TransactionError::Discard)
                &&& final(self)@ == old(self)@
            },
            !old(self)@.discarded ==> exists|found: Result<Option<&EntryValue<V>>, P::Error>|
                {
                    &&& #[trigger] old(self)@.pending_writes->0.get_equivalent_gives(key, found)
                    &&& old(self)@.tests_key(
                        found,
                        |c: C, c2: C| c.mark_read_equivalent_makes(key, &c2),
                        final(self)@,
                        answer,
                    )
                },
            final(self).wf(),
    {
        if self.discarded {
            return Err(TransactionError::Discard);
        }
        let settled = settle_contains(self.pending_writes.as_ref().unwrap().get_equivalent(key));
        match settled {
            Err(e) => Err(e),
            Ok(Lookup::Pending(there)) => Ok(Some(there)),
            Ok(Lookup::Missing) => {
                // Track reads. No need to track read if txn serviced it internally.
                if let Some(conflict_manager) = &mut self.conflict_manager {
                    conflict_manager.mark_read_equivalent(key);
                }
                Ok(None)
            },
        }
    }

    /// Looks for the key in the pending writes, if such key is not in the pending writes,
    /// the end user can read the key from the database.
    pub fn get_equivalent<'a, 'b: 'a, Q>(&'a mut self, key: &'b Q) -> (answer: Result<
        Option<EntryRef<'a, K, V>>,
        TransactionError<P::Error>,
    >) where K: Borrow<Q>, Q: ?Sized + Eq + Hash
        requires
            old(self).wf(),
        ensures
            old(self)@.discarded ==> {
                &&& answer matches Err(TransactionError::Discard)
                &&& final(self)@ == old(self)@
            },
            !old(self)@.discarded ==> exists|
                found: Result<Option<(&K, &EntryValue<V>)>, P::Error>,
            |
                {
                    &&& #[trigger] old(self)@.pending_writes->0.get_entry_equivalent_gives(key, found)
                    &&& old(self)@.reads_key(
                        found,
                        |c: C, c2: C| c.mark_read_equivalent_makes(key, &c2),
                        final(self)@,
                        answer,
                    )
                },
            final(self).wf(),
    {
        if self.discarded {
            return Err(TransactionError::Discard);
        }
        let found = self.pending_writes.as_ref().unwrap().get_entry_equivalent(key);
        match settle_get(found) {
            Err(e) => Err(e),
            Ok(Lookup::Pending(entry)) => Ok(entry),
            Ok(Lookup::Missing) => {
                // Track reads. No need to track read if txn serviced it internally.
                if let Some(conflict_manager) = &mut self.conflict_manager {
                    conflict_manager.mark_read_equivalent(key);
                }
                Ok(None)
            },
        }
    }
}

impl<K, V, C, P, O> AsyncWtm<K, V, C, P, O> where
    C: CmComparable<Key = K>,
    P: PwmEquivalent<Key = K, Value = V>,
 {
    /// Returns `true` if the pending writes contains the key.
    ///
    /// - `Ok(None)`: means the key is not in the pending writes, the end user can read the key from the database.
    /// - `Ok(Some(true))`: means the key is in the pending writes.
    /// - `Ok(Some(false))`: means the key is in the pending writes and but is a remove entry.
    pub fn contains_key_comparable_cm_equivalent_pm<'a, 'b: 'a, Q>(&'a mut self, key: &'b Q) -> (answer: Result<
        Option<bool>,
        TransactionError<P::Error>,
    >) where K: Borrow<Q>, Q: ?Sized + Eq + Ord + Hash
        requires
            old(self).wf(),
        ensures
            old(self)@.discarded ==> {
                &&& answer matches Err(TransactionError::Discard)
                &&& final(self)@ == old(self)@
            },
            !old(self)@.discarded ==> exists|found: Result<Option<&EntryValue<V>>, P::Error>|
                {
                    &&& #[trigger] old(self)@.pending_writes->0.get_equivalent_gives(key, found)
                    &&& old(self)@.tests_key(
                        found,
                        |c: C, c2: C| c.mark_read_comparable_makes(key, &c2),
                        final(self)@,
                        answer,
                    )
                },
            final(self).wf(),
    {
        if self.discarded {
            return Err(TransactionError::Discard);
        }
        let settled = settle_contains(self.pending_writes.as_ref().unwrap().get_equivalent(key));
        match settled {
            Err(e) => Err(e),
            Ok(Lookup::Pending(there)) => Ok(Some(there)),
            Ok(Lookup::Missing) => {
                // Track reads. No need to track read if txn serviced it internally.
                if let Some(conflict_manager) = &mut self.conflict_manager {
                    conflict_manager.mark_read_comparable(key);
                }
                Ok(None)
            },
        }
    }

    /// Looks for the key in the pending writes, if such key is not in the pending writes,
    /// the end user can read the key from the database.
    pub fn get_comparable_cm_equivalent_pm<'a, 'b: 'a, Q>(&'a mut self, key: &'b Q) -> (answer: Result<
        Option<EntryRef<'a, K, V>>,
        TransactionError<P::Error>,
    >) where K: Borrow<Q>, Q: ?Sized + Eq + Ord + Hash
        requires
            old(self).wf(),
        ensures
            old(self)@.discarded ==> {
                &&& answer matches Err(TransactionError::Discard)
                &&& final(self)@ == old(self)@
            },
            !old(self)@.discarded ==> exists|
                found: Result<Option<(&K, &EntryValue<V>)>, P::Error>,
            |
                {
                    &&& #[trigger] old(self)@.pending_writes->0.get_entry_equivalent_gives(key, found)
                    &&& old(self)@.reads_key(
                        found,
                        |c: C, c2: C| c.mark_read_comparable_makes(key, &c2),
                        final(self)@,
                        answer,
                    )
                },
            final(self).wf(),
    {
        if self.discarded {
            return Err(TransactionError::Discard);
        }
        let found = self.pending_writes.as_ref().unwrap().get_entry_equivalent(key);
        match settle_get(found) {
            Err(e) => Err(e),
            Ok(Lookup::Pending(entry)) => Ok(entry),
            Ok(Lookup::Missing) => {
                // Track reads. No need to track read if txn serviced it internally.
                if let Some(conflict_manager) = &mut self.conflict_manager {
                    conflict_manager.mark_read_comparable(key);
                }
                Ok(None)
            },
        }
    }
}

impl<K, V, C, P, O> AsyncWtm<K, V, C, P, O> where
    C: CmComparable<Key = K>,
    P: Pwm<Key = K, Value = V>,
 {
    /// Marks a key is read.
    pub fn mark_read_comparable<Q>(&mut self, k: &Q) where K: Borrow<Q>, Q: ?Sized + Ord
        ensures
            old(self)@.marked(|c: C, c2: C| c.mark_read_comparable_makes(k, &c2), final(self)@),
    {
        if let Some(conflict_manager) = &mut self.conflict_manager {
            conflict_manager.mark_read_comparable(k);
        }
    }

    /// Marks a key is conflict.
    pub fn mark_conflict_comparable<Q>(&mut self, k: &Q) where K: Borrow<Q>, Q: ?Sized + Ord
        ensures
            old(self)@.marked(|c: C, c2: C| c.mark_conflict_comparable_makes(k, &c2), final(self)@),
    {
        if let Some(conflict_manager) = &mut self.conflict_manager {
            conflict_manager.mark_conflict_comparable(k);
        }
    }
}

impl<K, V, C, P, O> AsyncWtm<K, V, C, P, O> where
    C: CmComparable<Key = K>,
    P: PwmComparable<Key = K, Value = V>,
 {
    /// Returns `true` if the pending writes contains the key.
    ///
    /// - `Ok(None)`: means the key is not in the pending writes, the end user can read the key from the database.
    /// - `Ok(Some(true))`: means the key is in the pending writes.
    /// - `Ok(Some(false))`: means the key is in the pending writes and but is a remove entry.
    pub fn contains_key_comparable<'a, 'b: 'a, Q>(&'a mut self, key: &'b Q) -> (answer: Result<
        Option<bool>,
        TransactionError<P::Error>,
    >) where K: Borrow<Q>, Q: ?Sized + Ord
        requires
            old(self).wf(),
        ensures
            old(self)@.discarded ==> {
                &&& answer matches Err(TransactionError::Discard)
                &&& final(self)@ == old(self)@
            },
            !old(self)@.discarded ==> exists|found: Result<Option<&EntryValue<V>>, P::Error>|
                {
                    &&& #[trigger] old(self)@.pending_writes->0.get_comparable_gives(key, found)
                    &&& old(self)@.tests_key(
                        found,
                        |c: C, c2: C| c.mark_read_comparable_makes(key, &c2),
                        final(self)@,
                        answer,
                    )
                },
            final(self).wf(),
    {
        if self.discarded {
            return Err(TransactionError::Discard);
        }
        let settled = settle_contains(self.pending_writes.as_ref().unwrap().get_comparable(key));
        match settled {
            Err(e) => Err(e),
            Ok(Lookup::Pending(there)) => Ok(Some(there)),
            Ok(Lookup::Missing) => {
                // Track reads. No need to track read if txn serviced it internally.
                if let Some(conflict_manager) = &mut self.conflict_manager {
                    conflict_manager.mark_read_comparable(key);
                }
                Ok(None)
            },
        }
    }

    /// Looks for the key in the pending writes, if such key is not in the pending writes,
    /// the end user can read the key from the database.
    pub fn get_comparable<'a, 'b: 'a, Q>(&'a mut self, key: &'b Q) -> (answer: Result<
        Option<EntryRef<'a, K, V>>,
        TransactionError<P::Error>,
    >) where K: Borrow<Q>, Q: ?Sized + Ord
        requires
            old(self).wf(),
        ensures
            old(self)@.discarded ==> {
                &&& answer matches Err(TransactionError::Discard)
                &&& final(self)@ == old(self)@
            },
            !old(self)@.discarded ==> exists|
                found: Result<Option<(&K, &EntryValue<V>)>, P::Error>,
            |
                {
                    &&& #[trigger] old(self)@.pending_writes->0.get_entry_comparable_gives(key, found)
                    &&& old(self)@.reads_key(
                        found,
                        |c: C, c2: C| c.mark_read_comparable_makes(key, &c2),
                        final(self)@,
                        answer,
                    )
                },
            final(self).wf(),
    {
        if self.discarded {
            return Err(TransactionError::Discard);
        }
        let found = self.pending_writes.as_ref().unwrap().get_entry_comparable(key);
        match settle_get(found) {
            Err(e) => Err(e),
            Ok(Lookup::Pending(entry)) => Ok(entry),
            Ok(Lookup::Missing) => {
                // Track reads. No need to track read if txn serviced it internally.
                if let Some(conflict_manager) = &mut self.conflict_manager {
                    conflict_manager.mark_read_comparable(key);
                }
                Ok(None)
            },
        }
    }
}

impl<K, V, C, P, O> AsyncWtm<K, V, C, P, O> where
    C: CmEquivalent<Key = K>,
    P: PwmComparable<Key = K, Value = V>,
 {
    /// Returns `true` if the pending writes contains the key.
    ///
    /// - `Ok(None)`: means the key is not in the pending writes, the end user can read the key from the database.
    /// - `Ok(Some(true))`: means the key is in the pending writes.
    /// - `Ok(Some(false))`: means the key is in the pending writes and but is a remove entry.
    pub fn contains_key_equivalent_cm_comparable_pm<'a, 'b: 'a, Q>(&'a mut self, key: &'b Q) -> (answer: Result<
        Option<bool>,
        TransactionError<P::Error>,
    >) where K: Borrow<Q>, Q: ?Sized + Eq + Ord + Hash
        requires
            old(self).wf(),
        ensures
            old(self)@.discarded ==> {
                &&& answer matches Err(TransactionError::Discard)
                &&& final(self)@ == old(self)@
            },
            !old(self)@.discarded ==> exists|found: Result<Option<&EntryValue<V>>, P::Error>|
                {
                    &&& #[trigger] old(self)@.pending_writes->0.get_comparable_gives(key, found)
                    &&& old(self)@.tests_key(
                        found,
                        |c: C, c2: C| c.mark_read_equivalent_makes(key, &c2),
                        final(self)@,
                        answer,
                    )
                },
            final(self).wf(),
    {
        if self.discarded {
            return Err(TransactionError::Discard);
        }
        let settled = settle_contains(self.pending_writes.as_ref().unwrap().get_comparable(key));
        match settled {
            Err(e) => Err(e),
            Ok(Lookup::Pending(there)) => Ok(Some(there)),
            Ok(Lookup::Missing) => {
                // Track reads. No need to track read if txn serviced it internally.
                if let Some(conflict_manager) = &mut self.conflict_manager {
                    conflict_manager.mark_read_equivalent(key);
                }
                Ok(None)
            },
        }
    }

    /// Looks for the key in the pending writes, if such key is not in the pending writes,
    /// the end user can read the key from the database.
    pub fn get_equivalent_cm_comparable_pm<'a, 'b: 'a, Q>(&'a mut self, key: &'b Q) -> (answer: Result<
        Option<EntryRef<'a, K, V>>,
        TransactionError<P::Error>,
    >) where K: Borrow<Q>, Q: ?Sized + Eq + Ord + Hash
        requires
            old(self).wf(),
        ensures
            old(self)@.discarded ==> {
                &&& answer matches Err(TransactionError::Discard)
                &&& final(self)@ == old(self)@
            },
            !old(self)@.discarded ==> exists|
                found: Result<Option<(&K, &EntryValue<V>)>, P::Error>,
            |
                {
                    &&& #[trigger] old(self)@.pending_writes->0.get_entry_comparable_gives(key, found)
                    &&& old(self)@.reads_key(
                        found,
                        |c: C, c2: C| c.mark_read_equivalent_makes(key, &c2),
                        final(self)@,
                        answer,
                    )
                },
            final(self).wf(),
    {
        if self.discarded {
            return Err(TransactionError::Discard);
        }
        let found = self.pending_writes.as_ref().unwrap().get_entry_comparable(key);
        match settle_get(found) {
            Err(e) => Err(e),
            Ok(Lookup::Pending(entry)) => Ok(entry),
            Ok(Lookup::Missing) => {
                // Track reads. No need to track read if txn serviced it internally.
                if let Some(conflict_manager) = &mut self.conflict_manager {
                    conflict_manager.mark_read_equivalent(key);
                }
                Ok(None)
            },
        }
    }
}

} // verus!
