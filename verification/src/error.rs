//! What can go wrong in a transaction.
use vstd::prelude::*;

verus! {

/// The error of an operation on a transaction. `E` is the error of its pending writes manager.
#[derive(Debug, PartialEq, Eq)]
pub enum TransactionError<E> {
    /// The transaction has been discarded.
    Discard,
    /// A key that the transaction read has been written since it started.
    Conflict,
    /// The writes of the transaction exceed what fits in one batch.
    LargeTxn,
    /// The pending writes manager failed.
    Pwm(E),
}

impl<E> TransactionError<E> {
    /// The error of an operation whose pending writes manager failed with `err`.
    #[inline]
    pub fn pending(err: E) -> (made: Self)
        ensures
            made == TransactionError::Pwm(err),
    {
        TransactionError::Pwm(err)
    }
}

/// The error of a commit. `X` is the error of the function that writes to the database.
#[derive(Debug, PartialEq, Eq)]
pub enum WtmError<E, X> {
    /// The transaction could not be committed.
    Transaction(TransactionError<E>),
    /// The writes could not be applied to the database.
    Commit(X),
}

impl<E, X> WtmError<E, X> {
    /// The error of a commit that the transaction refused.
    #[inline]
    pub fn transaction(err: TransactionError<E>) -> (made: Self)
        ensures
            made == WtmError::<E, X>::Transaction(err),
    {
        WtmError::Transaction(err)
    }

    /// The error of a commit whose writes could not be applied.
    #[inline]
    pub fn commit(err: X) -> (made: Self)
        ensures
            made == WtmError::<E, X>::Commit(err),
    {
        WtmError::Commit(err)
    }
}

} // verus!
