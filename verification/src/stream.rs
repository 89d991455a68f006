//! The payment-stream data model: a stream record, its lifecycle states, the
//! accrual specification, and the operation/response surface of the stream
//! ledger.

use vstd::prelude::*;
use crate::amounts::sat_mul_spec;
use crate::{AccountOwner, Timestamp};

verus! {

/// Marker for the stream ledger's application interface: operations of type
/// `StreamOperation`, responses of type `StreamResponse`.
#[derive(Debug)]
pub struct StreamAbi;

/// Lifecycle states of a stream. `Completed` is a defined but currently
/// unreachable terminal state: no operation transitions into it, even when a
/// duration-based end time elapses. Only `Stopped` is a reachable terminal
/// state.
#[derive(Clone, Copy, Debug, PartialEq, Eq, Structural)]
pub enum StreamStatus {
    Active,
    Paused,
    Completed,
    Stopped,
}

/// A continuous-rate value-accrual agreement between a sender and a
/// recipient. Value accrues at `rate_per_second` per elapsed whole second
/// from `start_time` up to the effective accrual instant determined by the
/// status (see [`effective_instant`]).
#[derive(Clone, Copy, Debug, PartialEq, Eq)]
pub struct Stream {
    pub id: u64,
    pub sender: AccountOwner,
    pub recipient: AccountOwner,
    pub rate_per_second: u128,
    pub start_time: Timestamp,
    pub end_time: Option<Timestamp>,
    pub paused_at: Option<Timestamp>,
    pub total_deposited: u128,
    pub total_withdrawn: u128,
    pub status: StreamStatus,
}

/// Internal consistency of one stream record: a positive rate (enforced once
/// at creation), `paused_at` set exactly while paused, and an end time set in
/// every terminal state.
pub open spec fn wf_stream(s: Stream) -> bool {
    &&& s.rate_per_second > 0
    &&& (s.status is Paused <==> s.paused_at is Some)
    &&& ((s.status is Stopped || s.status is Completed) ==> s.end_time is Some)
}

/// The instant up to which a stream accrues: now while active, the pause
/// instant while paused, and the (frozen) end time in a terminal state. The
/// fallbacks to `now` are defensive defaults for records that violate
/// [`wf_stream`]; well-formed terminal and paused streams always have the
/// respective field set.
pub open spec fn effective_instant(s: Stream, now: Timestamp) -> Timestamp {
    match s.status {
        StreamStatus::Active => now,
        StreamStatus::Paused => match s.paused_at {
            Some(t) => t,
            None => now,
        },
        StreamStatus::Completed | StreamStatus::Stopped => match s.end_time {
            Some(t) => t,
            None => now,
        },
    }
}

/// Elapsed whole seconds between `start` and the effective instant `eff`;
/// zero unless `eff` is strictly after `start`. Fractional seconds are
/// truncated, never rounded, and never accrue later.
pub open spec fn elapsed_seconds(s: Stream, now: Timestamp) -> int {
    let eff = effective_instant(s, now);
    if eff <= s.start_time {
        0
    } else {
        (eff - s.start_time) / 1_000_000
    }
}

/// Earned-but-not-withdrawn value of a stream at `now`: the saturating
/// product of the rate and the elapsed whole seconds, minus what was already
/// withdrawn (clamped at zero). Pure in the stored fields and `now`; no
/// cached running total exists.
pub open spec fn spec_earned(s: Stream, now: Timestamp) -> u128 {
    let total_earned = sat_mul_spec(s.rate_per_second, elapsed_seconds(s, now) as u128);
    total_earned.saturating_sub(s.total_withdrawn)
}

/// A textual amount after the edge's lexical parse: either its numeric value
/// in the smallest unit, or the defined outcome for malformed or non-numeric
/// input. The parse itself is the hosting environment's collaborator; the
/// core never handles text-typed amounts.
#[derive(Clone, Copy, Debug, PartialEq, Eq, Structural)]
pub enum AmountText {
    Value(u128),
    Malformed,
}

/// Caller and validation failures of the stream ledger. All are expected,
/// recoverable outcomes reported to the caller with no partial state
/// mutation.
#[derive(Clone, Copy, Debug, PartialEq, Eq, Structural)]
pub enum StreamError {
    NotAuthenticated,
    InvalidRate,
    InvalidAmount,
    NotFound,
    NotSender,
    NotRecipient,
    NotActive,
    NotPaused,
    InsufficientEarned,
}

/// One request against the stream ledger. Textual amounts arrive already
/// passed through the edge's lexical parse as [`AmountText`].
#[derive(Clone, Copy, Debug, PartialEq, Eq, Structural)]
#[allow(inconsistent_fields)]
pub enum StreamOperation {
    CreateStream {
        recipient: AccountOwner,
        rate_per_second: AmountText,
        duration_seconds: Option<u64>,
    },
    PauseStream {
        stream_id: u64,
    },
    ResumeStream {
        stream_id: u64,
    },
    StopStream {
        stream_id: u64,
    },
    WithdrawFromStream {
        stream_id: u64,
        amount: Option<AmountText>,
    },
    TopUpStream {
        stream_id: u64,
        amount: AmountText,
    },
}

/// The tagged result of one stream-ledger operation.
#[derive(Clone, Copy, Debug, PartialEq, Eq, Structural)]
pub enum StreamResponse {
    Accepted,
    StreamId(u64),
    Amount(u128),
    Error(StreamError),
}

/// A cross-application notification about a newly created stream. Defined as
/// part of the surface; the current design never sends or handles one.
#[derive(Clone, Copy, Debug, PartialEq, Eq, Structural)]
pub enum StreamMessage {
    StreamCreated {
        stream_id: u64,
        recipient: AccountOwner,
        rate_per_second: u128,
    },
}

/// Instantiation parameters of the stream ledger: the identity of the token
/// application it is deployed beside.
#[derive(Clone, Copy, Debug, PartialEq, Eq, Structural)]
pub struct StreamParameters {
    pub token_app: u64,
}

} // verus!
