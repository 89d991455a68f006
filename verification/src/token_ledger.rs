//! The token account ledger: balances keyed by account identity, with credit,
//! debit-with-sufficiency-check, the cooldown-gated bonus claim, and the
//! operation dispatcher.

use vstd::prelude::*;
use std::collections::HashMap;
use crate::token::{
    DailyBonus, TokenError, TokenOperation, TokenResponse, spec_can_claim,
    BONUS_AMOUNT, INITIAL_SUPPLY,
};
use crate::{AccountOwner, Timestamp};

verus! {

broadcast use vstd::std_specs::hash::group_hash_axioms;

/// Post-state of a successful transfer: `amount` debited from `owner` (the
/// sufficiency check passed, so the subtraction is exact), then credited to
/// `target`, saturating. A self-transfer debits and credits the same entry in
/// that order.
pub open spec fn spec_transfer_post(
    pre: Map<AccountOwner, u128>,
    post: Map<AccountOwner, u128>,
    owner: AccountOwner,
    amount: u128,
    target: AccountOwner,
) -> bool {
    let debited = pre.insert(owner, (spec_balance(pre, owner) - amount) as u128);
    post == debited.insert(target, spec_balance(debited, target).saturating_add(amount))
}

/// The token ledger's state: non-negative balances (enforced by the unsigned
/// amount type together with checked debits), the lazily created per-account
/// bonus records, and the registered total supply.
pub struct TokenState {
    pub accounts: HashMap<AccountOwner, u128>,
    pub daily_bonuses: HashMap<AccountOwner, DailyBonus>,
    pub total_supply: u128,
}

/// The balance of `owner` in the account map: the stored amount, or zero if
/// the account has no entry.
pub open spec fn spec_balance(accounts: Map<AccountOwner, u128>, owner: AccountOwner) -> u128 {
    if accounts.contains_key(owner) {
        accounts[owner]
    } else {
        0
    }
}

/// The bonus record of `owner`: the stored one, or the lazy default with the
/// fixed grant size and a last claim at epoch 0.
pub open spec fn spec_bonus(bonuses: Map<AccountOwner, DailyBonus>, owner: AccountOwner) -> DailyBonus {
    if bonuses.contains_key(owner) {
        bonuses[owner]
    } else {
        DailyBonus { amount: BONUS_AMOUNT, last_claim: 0 }
    }
}

impl TokenState {
    /// Every stored bonus record carries the fixed grant size: the record is
    /// only ever created from the default and its `amount` never changes.
    pub open spec fn wf(&self) -> bool {
        forall|o: AccountOwner| self.daily_bonuses@.contains_key(o) ==>
            (#[trigger] self.daily_bonuses@[o]).amount == BONUS_AMOUNT
    }

    /// A freshly loaded ledger: no accounts, no bonus records, no supply.
    pub fn new() -> (s: Self)
        ensures
            s.wf(),
            s.accounts@ == Map::<AccountOwner, u128>::empty(),
            s.daily_bonuses@ == Map::<AccountOwner, DailyBonus>::empty(),
            s.total_supply == 0,
    {
        TokenState {
            accounts: HashMap::new(),
            daily_bonuses: HashMap::new(),
            total_supply: 0,
        }
    }

    /// Register the initial token supply, as instantiation does.
    pub fn instantiate(&mut self)
        ensures
            final(self).accounts@ == old(self).accounts@,
            final(self).daily_bonuses@ == old(self).daily_bonuses@,
            final(self).total_supply == INITIAL_SUPPLY,
    {
        self.total_supply = INITIAL_SUPPLY;
    }

    /// The registered total supply.
    pub fn total_supply(&self) -> (r: u128)
        ensures
            r == self.total_supply,
    {
        self.total_supply
    }

    /// The balance of `owner`, or zero if the account has no entry. Pure
    /// read, no side effect.
    pub fn balance(&self, owner: &AccountOwner) -> (r: u128)
        ensures
            r == spec_balance(self.accounts@, *owner),
    {
        match self.accounts.get(owner) {
            Some(b) => *b,
            None => 0,
        }
    }

    /// Add `amount` to the balance of `owner`, saturating at the amount
    /// maximum. Always succeeds; the clamp is an accepted lossy edge case.
    pub fn credit(&mut self, owner: AccountOwner, amount: u128)
        ensures
            final(self).accounts@ == old(self).accounts@.insert(
                owner,
                spec_balance(old(self).accounts@, owner).saturating_add(amount),
            ),
            final(self).daily_bonuses@ == old(self).daily_bonuses@,
            final(self).total_supply == old(self).total_supply,
    {
        let balance = self.balance(&owner);
        let new_balance = balance.saturating_add(amount);
        self.accounts.insert(owner, new_balance);
    }

    /// Subtract `amount` from the balance of `owner` after an explicit
    /// sufficiency check: fails, mutating nothing, exactly when the balance
    /// is below `amount`. The subtraction itself is exact, never saturating —
    /// a silent clamp to zero must never stand in for a failed debit.
    pub fn debit(&mut self, owner: AccountOwner, amount: u128) -> (r: Result<(), TokenError>)
        ensures
            r == if spec_balance(old(self).accounts@, owner) < amount {
                Err::<(), TokenError>(TokenError::InsufficientBalance)
            } else {
                Ok::<(), TokenError>(())
            },
            r is Err ==> final(self).accounts@ == old(self).accounts@,
            r is Ok ==> final(self).accounts@ == old(self).accounts@.insert(
                owner,
                (spec_balance(old(self).accounts@, owner) - amount) as u128,
            ),
            final(self).daily_bonuses@ == old(self).daily_bonuses@,
            final(self).total_supply == old(self).total_supply,
    {
        let balance = self.balance(&owner);
        if balance < amount {
            return Err(TokenError::InsufficientBalance);
        }
        let new_balance = balance - amount;
        self.accounts.insert(owner, new_balance);
        Ok(())
    }

    /// Move `amount` from `owner` to `target_owner`: a checked debit followed
    /// by a saturating credit. Fails with no mutation exactly when `owner`'s
    /// balance is below `amount`. The hosting environment checks the caller's
    /// permission over `owner` before invoking this.
    pub fn transfer(
        &mut self,
        owner: AccountOwner,
        amount: u128,
        target_owner: AccountOwner,
    ) -> (r: Result<(), TokenError>)
        requires
            old(self).wf(),
        ensures
            final(self).wf(),
            r == if spec_balance(old(self).accounts@, owner) < amount {
                Err::<(), TokenError>(TokenError::InsufficientBalance)
            } else {
                Ok::<(), TokenError>(())
            },
            r is Err ==> final(self).accounts@ == old(self).accounts@,
            r is Ok ==> spec_transfer_post(
                old(self).accounts@,
                final(self).accounts@,
                owner,
                amount,
                target_owner,
            ),
            final(self).daily_bonuses@ == old(self).daily_bonuses@,
            final(self).total_supply == old(self).total_supply,
    {
        match self.debit(owner, amount) {
            Err(e) => return Err(e),
            Ok(_) => (),
        }
        self.credit(target_owner, amount);
        Ok(())
    }

    /// Claim the daily bonus for `owner`: load (or lazily default-construct)
    /// the account's bonus record, apply the cooldown rule, and — only on
    /// success — persist the updated record and credit the account with the
    /// fixed grant. A claim during the cooldown is a recoverable failure that
    /// mutates nothing. The hosting environment checks the caller's
    /// permission over `owner` before invoking this.
    pub fn claim_bonus(
        &mut self,
        owner: AccountOwner,
        current_time: Timestamp,
    ) -> (r: Result<u128, TokenError>)
        requires
            old(self).wf(),
        ensures
            final(self).wf(),
            spec_can_claim(spec_bonus(old(self).daily_bonuses@, owner), current_time) ==> {
                let b = spec_bonus(old(self).daily_bonuses@, owner);
                &&& r == Ok::<u128, TokenError>(b.amount)
                &&& final(self).daily_bonuses@ == old(self).daily_bonuses@.insert(
                    owner,
                    (DailyBonus { amount: b.amount, last_claim: current_time }),
                )
                &&& final(self).accounts@ == old(self).accounts@.insert(
                    owner,
                    spec_balance(old(self).accounts@, owner).saturating_add(b.amount),
                )
            },
            !spec_can_claim(spec_bonus(old(self).daily_bonuses@, owner), current_time) ==> {
                &&& r == Err::<u128, TokenError>(TokenError::BonusNotYetAvailable)
                &&& final(self).accounts@ == old(self).accounts@
                &&& final(self).daily_bonuses@ == old(self).daily_bonuses@
            },
            final(self).total_supply == old(self).total_supply,
    {
        let mut bonus = match self.daily_bonuses.get(&owner) {
            Some(b) => *b,
            None => DailyBonus::new(BONUS_AMOUNT),
        };

        let claimed_amount = bonus.claim(current_time);

        if claimed_amount == 0 {
            return Err(TokenError::BonusNotYetAvailable);
        }

        self.daily_bonuses.insert(owner, bonus);
        self.credit(owner, claimed_amount);

        Ok(claimed_amount)
    }

    /// Apply one operation at the instant `now`: resolve it to exactly one
    /// ledger method and map its outcome to the tagged response. A failed
    /// operation leaves the ledger untouched. The hosting environment has
    /// already checked the caller's permission over the named owner.
    pub fn execute_operation(
        &mut self,
        operation: TokenOperation,
        now: Timestamp,
    ) -> (resp: TokenResponse)
        requires
            old(self).wf(),
        ensures
            final(self).wf(),
            match operation {
                TokenOperation::Balance { owner } => {
                    &&& resp == TokenResponse::Balance(spec_balance(old(self).accounts@, owner))
                    &&& *final(self) == *old(self)
                },
                TokenOperation::Transfer { owner, amount, target_owner } => {
                    if spec_balance(old(self).accounts@, owner) < amount {
                        &&& resp == TokenResponse::Error(TokenError::InsufficientBalance)
                        &&& final(self).accounts@ == old(self).accounts@
                        &&& final(self).daily_bonuses@ == old(self).daily_bonuses@
                        &&& final(self).total_supply == old(self).total_supply
                    } else {
                        &&& resp == TokenResponse::Accepted
                        &&& spec_transfer_post(
                            old(self).accounts@,
                            final(self).accounts@,
                            owner,
                            amount,
                            target_owner,
                        )
                        &&& final(self).daily_bonuses@ == old(self).daily_bonuses@
                        &&& final(self).total_supply == old(self).total_supply
                    }
                },
                TokenOperation::ClaimBonus { owner } => {
                    let b = spec_bonus(old(self).daily_bonuses@, owner);
                    if spec_can_claim(b, now) {
                        &&& resp == TokenResponse::Balance(b.amount)
                        &&& final(self).daily_bonuses@ == old(self).daily_bonuses@.insert(
                            owner,
                            (DailyBonus { amount: b.amount, last_claim: now }),
                        )
                        &&& final(self).accounts@ == old(self).accounts@.insert(
                            owner,
                            spec_balance(old(self).accounts@, owner).saturating_add(b.amount),
                        )
                        &&& final(self).total_supply == old(self).total_supply
                    } else {
                        &&& resp == TokenResponse::Error(TokenError::BonusNotYetAvailable)
                        &&& final(self).accounts@ == old(self).accounts@
                        &&& final(self).daily_bonuses@ == old(self).daily_bonuses@
                        &&& final(self).total_supply == old(self).total_supply
                    }
                },
            },
    {
        match operation {
            TokenOperation::Balance { owner } => {
                let balance = self.balance(&owner);
                TokenResponse::Balance(balance)
            },
            TokenOperation::Transfer { owner, amount, target_owner } => {
                match self.transfer(owner, amount, target_owner) {
                    Err(e) => TokenResponse::Error(e),
                    Ok(_) => TokenResponse::Accepted,
                }
            },
            TokenOperation::ClaimBonus { owner } => {
                match self.claim_bonus(owner, now) {
                    Err(e) => TokenResponse::Error(e),
                    Ok(claimed) => TokenResponse::Balance(claimed),
                }
            },
        }
    }
}

} // verus!
