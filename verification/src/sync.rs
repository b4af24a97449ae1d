//! The managers that a transaction is built on, for a database to implement.
//!
//! A method that a transaction calls has a relation beside it, named after the method: `.._gives`
//! relates the receiver and the arguments to what may come back, `.._makes` relates them to what
//! may become of the receiver. An implementation picks its relations, and has the ones that admit
//! everything if it picks none; a method promises no more than to stay within its own. So the
//! traits ask nothing of a manager, and what a transaction does is stated in terms of the
//! relations.
use crate::types::{Entry, EntryValue};
use core::borrow::Borrow;
use core::hash::Hash;
use vstd::prelude::*;

verus! {

/// A conflict manager: it records the keys that a transaction reads and writes, and tells whether
/// two transactions collide.
pub trait Cm: Sized {
    /// The error of the conflict manager.
    type Error;

    /// The key that the manager records.
    type Key;

    /// What a manager is made with.
    type Options;

    /// Create a new conflict manager with the given options.
    fn new(options: Self::Options) -> Result<Self, Self::Error>;

    /// What marking `key` as read may make of the manager.
    open spec fn mark_read_makes(&self, key: &Self::Key, after: &Self) -> bool {
        true
    }

    /// Mark the key is read.
    fn mark_read(&mut self, key: &Self::Key)
        ensures
            old(self).mark_read_makes(key, final(self)),
    ;

    /// What marking `key` as written may make of the manager.
    open spec fn mark_conflict_makes(&self, key: &Self::Key, after: &Self) -> bool {
        true
    }

    /// Mark the key is potentially in conflict with other transactions.
    fn mark_conflict(&mut self, key: &Self::Key)
        ensures
            old(self).mark_conflict_makes(key, final(self)),
    ;

    /// Returns true if this manager collides with the other.
    fn has_conflict(&self, other: &Self) -> bool;
}

/// A conflict manager that also takes keys in a borrowed, ordered form.
pub trait CmComparable: Cm {
    /// What marking `key` as read may make of the manager.
    open spec fn mark_read_comparable_makes<Q: ?Sized>(&self, key: &Q, after: &Self) -> bool {
        true
    }

    /// Optimized version of [`mark_read`](Cm::mark_read) for borrowed keys.
    fn mark_read_comparable<Q>(&mut self, key: &Q) where Self::Key: Borrow<Q>, Q: Ord + ?Sized
        ensures
            old(self).mark_read_comparable_makes(key, final(self)),
    ;

    /// What marking `key` as written may make of the manager.
    open spec fn mark_conflict_comparable_makes<Q: ?Sized>(&self, key: &Q, after: &Self) -> bool {
        true
    }

    /// Optimized version of [`mark_conflict`](Cm::mark_conflict) for borrowed keys.
    fn mark_conflict_comparable<Q>(&mut self, key: &Q) where Self::Key: Borrow<Q>, Q: Ord + ?Sized
        ensures
            old(self).mark_conflict_comparable_makes(key, final(self)),
    ;
}

/// A conflict manager that also takes keys in a borrowed, hashed form.
pub trait CmEquivalent: Cm {
    /// What marking `key` as read may make of the manager.
    open spec fn mark_read_equivalent_makes<Q: ?Sized>(&self, key: &Q, after: &Self) -> bool {
        true
    }

    /// Optimized version of [`mark_read`](Cm::mark_read) for borrowed keys.
    fn mark_read_equivalent<Q>(&mut self, key: &Q) where
        Self::Key: Borrow<Q>,
        Q: Hash + Eq + ?Sized,

        ensures
            old(self).mark_read_equivalent_makes(key, final(self)),
    ;

    /// What marking `key` as written may make of the manager.
    open spec fn mark_conflict_equivalent_makes<Q: ?Sized>(&self, key: &Q, after: &Self) -> bool {
        true
    }

    /// Optimized version of [`mark_conflict`](Cm::mark_conflict) for borrowed keys.
    fn mark_conflict_equivalent<Q>(&mut self, key: &Q) where
        Self::Key: Borrow<Q>,
        Q: Hash + Eq + ?Sized,

        ensures
            old(self).mark_conflict_equivalent_makes(key, final(self)),
    ;
}

/// A pending writes manager: it holds the writes of a transaction until they are committed.
pub trait Pwm: Sized {
    /// The error of the pending writes manager.
    type Error;

    /// The key of a write.
    type Key;

    /// The value of a write.
    type Value;

    /// What a manager is made with.
    type Options;

    /// Create a new pending writes manager with the given options.
    fn new(options: Self::Options) -> Result<Self, Self::Error>;

    /// Returns true if there are no pending writes.
    fn is_empty(&self) -> bool;

    /// Returns the number of pending writes.
    fn len(&self) -> usize;

    /// What validating `entry` may answer.
    open spec fn validate_entry_gives(
        &self,
        entry: &Entry<Self::Key, Self::Value>,
        answer: Result<(), Self::Error>,
    ) -> bool {
        true
    }

    /// Validate if the entry is valid for this database.
    fn validate_entry(&self, entry: &Entry<Self::Key, Self::Value>) -> (answer: Result<
        (),
        Self::Error,
    >)
        ensures
            self.validate_entry_gives(entry, answer),
    ;

    /// What the size limit may be.
    open spec fn max_batch_size_gives(&self, limit: u64) -> bool {
        true
    }

    /// Returns the maximum size of the pending writes, in bytes.
    fn max_batch_size(&self) -> (limit: u64)
        ensures
            self.max_batch_size_gives(limit),
    ;

    /// What the entry limit may be.
    open spec fn max_batch_entries_gives(&self, limit: u64) -> bool {
        true
    }

    /// Returns the maximum number of entries in the pending writes.
    fn max_batch_entries(&self) -> (limit: u64)
        ensures
            self.max_batch_entries_gives(limit),
    ;

    /// What the size of `entry` may be estimated at.
    open spec fn estimate_size_gives(
        &self,
        entry: &Entry<Self::Key, Self::Value>,
        size: u64,
    ) -> bool {
        true
    }

    /// Estimate the size of the entry, in bytes.
    fn estimate_size(&self, entry: &Entry<Self::Key, Self::Value>) -> (size: u64)
        ensures
            self.estimate_size_gives(entry, size),
    ;

    /// What looking `key` up may answer.
    open spec fn get_gives(
        &self,
        key: &Self::Key,
        found: Result<Option<&EntryValue<Self::Value>>, Self::Error>,
    ) -> bool {
        true
    }

    /// Returns the pending write of the key.
    fn get(&self, key: &Self::Key) -> (found: Result<
        Option<&EntryValue<Self::Value>>,
        Self::Error,
    >)
        ensures
            self.get_gives(key, found),
    ;

    /// Returns true if the key has a pending write.
    fn contains_key(&self, key: &Self::Key) -> Result<bool, Self::Error>;

    /// What inserting `value` at `key` may make of the manager, and answer.
    open spec fn insert_makes(
        &self,
        key: Self::Key,
        value: EntryValue<Self::Value>,
        after: &Self,
        answer: Result<(), Self::Error>,
    ) -> bool {
        true
    }

    /// Inserts a pending write.
    fn insert(&mut self, key: Self::Key, value: EntryValue<Self::Value>) -> (answer: Result<
        (),
        Self::Error,
    >)
        ensures
            old(self).insert_makes(key, value, final(self), answer),
    ;

    /// What removing the write of `key` may make of the manager, and answer.
    open spec fn remove_entry_makes(
        &self,
        key: &Self::Key,
        after: &Self,
        removed: Result<Option<(Self::Key, EntryValue<Self::Value>)>, Self::Error>,
    ) -> bool {
        true
    }

    /// Removes the pending write of the key, and returns it.
    fn remove_entry(&mut self, key: &Self::Key) -> (removed: Result<
        Option<(Self::Key, EntryValue<Self::Value>)>,
        Self::Error,
    >)
        ensures
            old(self).remove_entry_makes(key, final(self), removed),
    ;

    /// Returns the pending writes.
    fn iter(&self) -> Vec<(&Self::Key, &EntryValue<Self::Value>)>;

    /// What the manager may hand out when it is consumed.
    open spec fn into_iter_gives(&self, writes: Seq<(Self::Key, EntryValue<Self::Value>)>) -> bool {
        true
    }

    /// Consumes the manager and returns the pending writes.
    fn into_iter(self) -> (writes: Vec<(Self::Key, EntryValue<Self::Value>)>)
        ensures
            self.into_iter_gives(writes@),
    ;
}

/// A pending writes manager that also takes keys in a borrowed, ordered form.
pub trait PwmComparable: Pwm {
    /// What looking `key` up may answer.
    open spec fn get_comparable_gives<Q: ?Sized>(
        &self,
        key: &Q,
        found: Result<Option<&EntryValue<Self::Value>>, Self::Error>,
    ) -> bool {
        true
    }

    /// Optimized version of [`get`](Pwm::get) for borrowed keys.
    fn get_comparable<Q>(&self, key: &Q) -> (found: Result<
        Option<&EntryValue<Self::Value>>,
        Self::Error,
    >) where Self::Key: Borrow<Q>, Q: Ord + ?Sized
        ensures
            self.get_comparable_gives(key, found),
    ;

    /// What looking `key` up may answer, with the key that the manager holds.
    open spec fn get_entry_comparable_gives<Q: ?Sized>(
        &self,
        key: &Q,
        found: Result<Option<(&Self::Key, &EntryValue<Self::Value>)>, Self::Error>,
    ) -> bool {
        true
    }

    /// Like [`get_comparable`](PwmComparable::get_comparable), with the key that the manager holds.
    fn get_entry_comparable<Q>(&self, key: &Q) -> (found: Result<
        Option<(&Self::Key, &EntryValue<Self::Value>)>,
        Self::Error,
    >) where Self::Key: Borrow<Q>, Q: Ord + ?Sized
        ensures
            self.get_entry_comparable_gives(key, found),
    ;

    /// Optimized version of [`contains_key`](Pwm::contains_key) for borrowed keys.
    fn contains_key_comparable<Q>(&self, key: &Q) -> Result<bool, Self::Error> where
        Self::Key: Borrow<Q>,
        Q: Ord + ?Sized,
    ;

    /// Optimized version of [`remove_entry`](Pwm::remove_entry) for borrowed keys.
    fn remove_entry_comparable<Q>(&mut self, key: &Q) -> Result<
        Option<(Self::Key, EntryValue<Self::Value>)>,
        Self::Error,
    > where Self::Key: Borrow<Q>, Q: Ord + ?Sized;
}

/// A pending writes manager that also takes keys in a borrowed, hashed form.
pub trait PwmEquivalent: Pwm {
    /// What looking `key` up may answer.
    open spec fn get_equivalent_gives<Q: ?Sized>(
        &self,
        key: &Q,
        found: Result<Option<&EntryValue<Self::Value>>, Self::Error>,
    ) -> bool {
        true
    }

    /// Optimized version of [`get`](Pwm::get) for borrowed keys.
    fn get_equivalent<Q>(&self, key: &Q) -> (found: Result<
        Option<&EntryValue<Self::Value>>,
        Self::Error,
    >) where Self::Key: Borrow<Q>, Q: Hash + Eq + ?Sized
        ensures
            self.get_equivalent_gives(key, found),
    ;

    /// What looking `key` up may answer, with the key that the manager holds.
    open spec fn get_entry_equivalent_gives<Q: ?Sized>(
        &self,
        key: &Q,
        found: Result<Option<(&Self::Key, &EntryValue<Self::Value>)>, Self::Error>,
    ) -> bool {
        true
    }

    /// Like [`get_equivalent`](PwmEquivalent::get_equivalent), with the key that the manager holds.
    fn get_entry_equivalent<Q>(&self, key: &Q) -> (found: Result<
        Option<(&Self::Key, &EntryValue<Self::Value>)>,
        Self::Error,
    >) where Self::Key: Borrow<Q>, Q: Hash + Eq + ?Sized
        ensures
            self.get_entry_equivalent_gives(key, found),
    ;

    /// Optimized version of [`contains_key`](Pwm::contains_key) for borrowed keys.
    fn contains_key_equivalent<Q>(&self, key: &Q) -> Result<bool, Self::Error> where
        Self::Key: Borrow<Q>,
        Q: Hash + Eq + ?Sized,
    ;

    /// Optimized version of [`remove_entry`](Pwm::remove_entry) for borrowed keys.
    fn remove_entry_equivalent<Q>(&mut self, key: &Q) -> Result<
        Option<(Self::Key, EntryValue<Self::Value>)>,
        Self::Error,
    > where Self::Key: Borrow<Q>, Q: Hash + Eq + ?Sized;
}

} // verus!
