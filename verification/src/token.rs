//! The token ledger's data model: the daily-bonus record with its cooldown
//! rule, and the operation/response surface.

use vstd::prelude::*;
use crate::{AccountOwner, Timestamp};

verus! {

/// Marker for the token ledger's application interface: operations of type
/// `TokenOperation`, responses of type `TokenResponse`.
#[derive(Debug)]
pub struct TokenAbi;

/// The minimum interval between successful bonus claims: 24 hours in
/// microseconds.
pub const BONUS_COOLDOWN_MICROS: u64 = 86_400_000_000;

/// The fixed grant of one bonus claim, in the smallest token unit.
pub const BONUS_AMOUNT: u128 = 1_000_000;

/// The token supply registered at instantiation, in the smallest token unit.
pub const INITIAL_SUPPLY: u128 = 1_000_000_000;

/// Per-account bonus record: the fixed grant size and the instant of the last
/// successful claim. Created lazily on the first claim attempt with
/// `last_claim` at epoch 0, so the very first claim always succeeds; the
/// record lives for the account's lifetime and is never deleted. The grant
/// size itself never grows or resets through this record.
#[derive(Clone, Copy, Debug, PartialEq, Eq, Structural)]
pub struct DailyBonus {
    pub amount: u128,
    pub last_claim: Timestamp,
}

/// Whether a claim at `now` is past the cooldown of the record `b`: at least
/// 24 hours after the last successful claim. Time runs on the environment's
/// monotonic clock, so an instant before `last_claim` never satisfies this.
pub open spec fn spec_can_claim(b: DailyBonus, now: Timestamp) -> bool {
    now >= b.last_claim + BONUS_COOLDOWN_MICROS
}

impl DailyBonus {
    /// A fresh record with the given grant size, claimable immediately.
    pub fn new(amount: u128) -> (b: Self)
        ensures
            b.amount == amount,
            b.last_claim == 0,
    {
        DailyBonus { amount, last_claim: 0 }
    }

    /// Whether the cooldown since the last successful claim has elapsed.
    pub fn can_claim(&self, current_time: Timestamp) -> (r: bool)
        ensures
            r == spec_can_claim(*self, current_time),
    {
        let elapsed: u64 = current_time.saturating_sub(self.last_claim);
        elapsed >= BONUS_COOLDOWN_MICROS
    }

    /// Claim the bonus: if the cooldown has elapsed, record `current_time` as
    /// the last claim and return the fixed grant; otherwise change nothing
    /// and return zero, signalling that the bonus is not yet available.
    pub fn claim(&mut self, current_time: Timestamp) -> (r: u128)
        ensures
            spec_can_claim(*old(self), current_time) ==> {
                &&& r == old(self).amount
                &&& final(self).amount == old(self).amount
                &&& final(self).last_claim == current_time
            },
            !spec_can_claim(*old(self), current_time) ==> {
                &&& r == 0
                &&& *final(self) == *old(self)
            },
    {
        if self.can_claim(current_time) {
            self.last_claim = current_time;
            self.amount
        } else {
            0
        }
    }
}

/// Caller and validation failures of the token ledger. Both are expected,
/// recoverable outcomes reported to the caller with no partial state
/// mutation.
#[derive(Clone, Copy, Debug, PartialEq, Eq, Structural)]
pub enum TokenError {
    InsufficientBalance,
    BonusNotYetAvailable,
}

/// One request against the token ledger. The hosting environment checks the
/// caller's permission over `owner` before the ledger is invoked.
#[derive(Clone, Copy, Debug, PartialEq, Eq, Structural)]
pub enum TokenOperation {
    Transfer {
        owner: AccountOwner,
        amount: u128,
        target_owner: AccountOwner,
    },
    ClaimBonus {
        owner: AccountOwner,
    },
    Balance {
        owner: AccountOwner,
    },
}

/// The tagged result of one token-ledger operation.
#[derive(Clone, Copy, Debug, PartialEq, Eq, Structural)]
pub enum TokenResponse {
    Accepted,
    Balance(u128),
    Error(TokenError),
}

} // verus!
