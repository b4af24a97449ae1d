//! The write side of a multi-writer, multi-reader transactional store: versioned keys and
//! entries, the pluggable managers of pending writes and conflicts, and the transaction that
//! ties them together.
//!
//! Nothing here waits or performs input and output. A method that must know what a manager
//! answers calls it through the traits of [`sync`]; what follows from an answer stands in
//! functions of its own, which a caller with another kind of manager can use directly.
//!
//! What holds of the library as a whole stands in [`laws`]. [`type_laws`], [`read_laws`],
//! [`write_laws`] and [`commit_laws`] say of each operation, call by call, what it does.
pub mod commit;
pub mod commit_laws;
pub mod error;
pub mod laws;
pub mod modify;
pub mod read_laws;
pub mod sync;
pub mod type_laws;
pub mod types;
pub mod write;
pub mod write_laws;

pub use cheap_clone::CheapClone;
