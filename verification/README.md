# mwmr

The write side of a multi-writer, multi-reader transactional store, verified with Verus.

A write transaction keeps its writes in a pending writes manager, serves its own reads from there,
records what it reads and writes in a conflict manager, and is committed as one batch at a
timestamp that an oracle hands out. The two managers are pluggable.

- `src/types.rs`: versioned keys and entries.
- `src/sync.rs`: the traits of the managers. Each method that a transaction calls has a relation
  beside it, in terms of which the transaction's contracts are stated.
- `src/error.rs`: the errors.
- `src/write.rs`: the transaction: reads, writes, markers, discarding.
- `src/modify.rs`: the stages of one write, in their order.
- `src/commit.rs`: the commit, as a state machine from events to actions.
- `src/laws.rs`: what holds of the library as a whole, such as that a transaction reads its own
  writes and that a commit carries each of them.
- `app/`: the asynchronous managers, oracle and transaction. It waits and performs; the decisions
  are the library's.
- `tests/`: the library at work, on managers built with `indexmap`.

One thing is taken on trust: that `cheap_clone::CheapClone::cheap_clone` returns a copy, as its
documentation says.
