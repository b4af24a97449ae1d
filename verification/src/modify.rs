//! The stages of one write, in their order.
//!
//! Between two stages the managers of the transaction are asked or told something. Each stage is
//! a type of its own, and takes what the managers answered to the next one, so that a caller that
//! waits for its managers goes through the same stages as [`AsyncWtm::insert`] and
//! [`AsyncWtm::remove`] do.
use crate::error::TransactionError;
use crate::types::{Entry, EntryValue};
use crate::write::AsyncWtm;
use vstd::prelude::*;

verus! {

/// A write that an open transaction is asked for. The pending writes manager is to validate its
/// entry.
pub struct PlannedWrite<K, V> {
    ent: Entry<K, V>,
}

/// A write that is valid. The pending writes manager is to estimate its size and to tell the
/// limits.
pub struct ValidWrite<K, V> {
    ent: Entry<K, V>,
}

/// A write that was counted in. The conflict manager, if there is one, is to record its key as
/// written.
pub struct CountedWrite<K, V> {
    ent: Entry<K, V>,
}

/// A write whose key was recorded. The pending writes manager is to remove the write of that key.
pub struct RecordedWrite<K, V> {
    ent: Entry<K, V>,
}

impl<K, V> View for PlannedWrite<K, V> {
    type V = Entry<K, V>;

    closed spec fn view(&self) -> Entry<K, V> {
        self.ent
    }
}

impl<K, V> View for ValidWrite<K, V> {
    type V = Entry<K, V>;

    closed spec fn view(&self) -> Entry<K, V> {
        self.ent
    }
}

impl<K, V> View for CountedWrite<K, V> {
    type V = Entry<K, V>;

    closed spec fn view(&self) -> Entry<K, V> {
        self.ent
    }
}

impl<K, V> View for RecordedWrite<K, V> {
    type V = Entry<K, V>;

    closed spec fn view(&self) -> Entry<K, V> {
        self.ent
    }
}

impl<K, V, C, P, O> AsyncWtm<K, V, C, P, O> {
    /// Plans the write of an entry. A discarded transaction refuses it.
    pub fn plan_write<E>(&self, ent: Entry<K, V>) -> (planned: Result<
        PlannedWrite<K, V>,
        TransactionError<E>,
    >)
        ensures
            match planned {
                Err(e) => e is Discard && self@.discarded,
                Ok(write) => !self@.discarded && write@ == ent,
            },
    {
        if self.is_discard() {
            return Err(TransactionError::Discard);
        }
        Ok(PlannedWrite { ent })
    }
}

impl<K, V> PlannedWrite<K, V> {
    /// Returns the entry to validate.
    pub fn entry(&self) -> (ent: &Entry<K, V>)
        ensures
            *ent == self@,
    {
        &self.ent
    }

    /// Goes on after the pending writes manager validated the entry.
    pub fn validated<E>(self, verdict: Result<(), E>) -> (valid: Result<
        ValidWrite<K, V>,
        TransactionError<E>,
    >)
        ensures
            match verdict {
                Err(e) => valid == Err::<ValidWrite<K, V>, _>(TransactionError::Pwm(e)),
                Ok(()) => valid matches Ok(write) && write@ == self@,
            },
    {
        match verdict {
            Err(e) => Err(TransactionError::Pwm(e)),
            Ok(()) => Ok(ValidWrite { ent: self.ent }),
        }
    }
}

impl<K, V> ValidWrite<K, V> {
    /// Returns the entry to estimate.
    pub fn entry(&self) -> (ent: &Entry<K, V>)
        ensures
            *ent == self@,
    {
        &self.ent
    }

    /// Goes on after the pending writes manager estimated the size and told its limits: the write
    /// is counted in, unless that would reach one of the limits.
    pub fn counted<C, P, O, E>(
        self,
        txn: &mut AsyncWtm<K, V, C, P, O>,
        size: u64,
        max_entries: u64,
        max_size: u64,
    ) -> (counted: Result<CountedWrite<K, V>, TransactionError<E>>)
        requires
            old(txn).wf(),
        ensures
            if old(txn)@.fits(size, max_entries, max_size) {
                &&& counted matches Ok(write)
                &&& write@ == self@
                &&& final(txn)@ == old(txn)@.reserved(size)
            } else {
                &&& counted matches Err(TransactionError::LargeTxn)
                &&& final(txn)@ == old(txn)@
            },
            final(txn).wf(),
    {
        match txn.reserve(size, max_entries, max_size) {
            Err(e) => Err(e),
            Ok(()) => Ok(CountedWrite { ent: self.ent }),
        }
    }
}

impl<K, V> CountedWrite<K, V> {
    /// Returns the key to record as written.
    pub fn key(&self) -> (key: &K)
        ensures
            *key == self@.data.spec_key(),
    {
        self.ent.key()
    }

    /// Goes on after the key was recorded.
    pub fn recorded(self) -> (write: RecordedWrite<K, V>)
        ensures
            write@ == self@,
    {
        RecordedWrite { ent: self.ent }
    }
}

impl<K, V> RecordedWrite<K, V> {
    /// Returns the key whose pending write is to be removed.
    pub fn key(&self) -> (key: &K)
        ensures
            *key == self@.data.spec_key(),
    {
        self.ent.key()
    }

    /// Goes on after the pending write of the key was removed: it is kept if it has another
    /// version. Returns the key and the value to insert.
    pub fn cleared<C, P, O, E>(
        self,
        txn: &mut AsyncWtm<K, V, C, P, O>,
        removed: Result<Option<(K, EntryValue<V>)>, E>,
    ) -> (parts: Result<(K, EntryValue<V>), TransactionError<E>>)
        ensures
            match removed {
                Err(e) => {
                    &&& parts == Err::<(K, EntryValue<V>), _>(TransactionError::Pwm(e))
                    &&& final(txn)@ == old(txn)@
                },
                Ok(removed) => {
                    &&& parts == Ok::<_, TransactionError<E>>(self@.spec_split())
                    &&& final(txn)@ == old(txn)@.displaced(self@.version, removed)
                },
            },
    {
        match removed {
            Err(e) => Err(TransactionError::Pwm(e)),
            Ok(removed) => {
                txn.displace(self.ent.version, removed);
                Ok(self.ent.split())
            },
        }
    }
}

/// What a write comes to after the pending writes manager inserted it.
pub fn settle_insert<E>(inserted: Result<(), E>) -> (answer: Result<(), TransactionError<E>>)
    ensures
        answer == (match inserted {
            Ok(()) => Ok(()),
            Err(e) => Err(TransactionError::Pwm(e)),
        }),
{
    match inserted {
        Ok(()) => Ok(()),
        Err(e) => Err(TransactionError::Pwm(e)),
    }
}

} // verus!
