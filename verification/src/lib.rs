//! Two coupled ledgers for a deterministic state machine: a fungible-token
//! account ledger with a cooldown-gated bonus faucet, and a continuous-rate
//! payment-streaming ledger. All amounts are unsigned integers in the
//! smallest indivisible unit; all timestamps are microsecond counts supplied
//! by the hosting environment's logical clock.

pub mod amounts;
pub mod stream;
pub mod stream_ledger;
pub mod token;
pub mod token_ledger;
pub mod laws;

use vstd::prelude::*;

verus! {

/// An account identity: an opaque, equality-comparable value resolved by the
/// hosting environment's authentication collaborator. The core only ever
/// compares identities for equality and uses them as ledger keys.
pub type AccountOwner = u64;

/// A logical instant, in microseconds. Supplied per operation by the hosting
/// environment's monotonic clock; the core never reads wall-clock time.
pub type Timestamp = u64;

} // verus!
