//! The pallet's two balance holds on sponsor accounts.
//!
//! Sponsor funds live in the balances pallet as holds under two reasons. The pallet reads the
//! held amounts and moves funds with three kinds of [`BalanceMove`]: hold, release and slash.
//! This module keeps the held amount of every account under each reason and applies those moves
//! to them the way the balances pallet's hold traits do. Whether the balances pallet accepts a
//! move at all depends on the rest of the account (free balance, existential deposit, freezes,
//! provider references, the number of holds), which is not kept here: applying a move takes the
//! balances pallet's [`Verdict`] on that same move.
use crate::types::{AccountId, Balance, BalancesError, HoldReason, Verdict};
use std::collections::BTreeMap;
use vstd::prelude::*;

verus! {

/// How exactly a release must match the requested amount.
#[derive(Clone, Copy, PartialEq, Eq, Structural, Debug)]
pub enum Precision {
    /// Release exactly the requested amount or fail.
    Exact,
    /// Release as much as is held, up to the requested amount.
    BestEffort,
}

/// A move of funds on or off hold, which the balances pallet performs.
#[derive(Clone, Copy, PartialEq, Eq, Debug)]
pub enum BalanceMove {
    /// Place `amount` of `who`'s free funds on hold under `reason`.
    Hold { reason: HoldReason, who: AccountId, amount: Balance },
    /// Return up to `amount` of `who`'s funds held under `reason` to their free balance.
    Release { reason: HoldReason, who: AccountId, amount: Balance, precision: Precision },
    /// Take up to `amount` of `who`'s funds held under `reason` out of the account.
    Slash { reason: HoldReason, who: AccountId, amount: Balance },
}

impl BalanceMove {
    /// The amount the move asks to move.
    pub open spec fn spec_amount(self) -> Balance {
        match self {
            BalanceMove::Hold { amount, .. } => amount,
            BalanceMove::Release { amount, .. } => amount,
            BalanceMove::Slash { amount, .. } => amount,
        }
    }

    /// Returns the amount the move asks to move.
    pub fn amount(&self) -> (amount: Balance)
        ensures
            amount == self.spec_amount(),
    {
        match self {
            BalanceMove::Hold { amount, .. } => *amount,
            BalanceMove::Release { amount, .. } => *amount,
            BalanceMove::Slash { amount, .. } => *amount,
        }
    }
}

/// The held amounts, per account, under each of the pallet's two hold reasons.
pub ghost struct LedgerModel {
    pub budget: Map<AccountId, Balance>,
    pub pending: Map<AccountId, Balance>,
}

/// The amount an account holds in `m`; an account without an entry holds nothing.
pub open spec fn amount_in(m: Map<AccountId, Balance>, who: AccountId) -> Balance {
    if m.contains_key(who) {
        m[who]
    } else {
        0
    }
}

/// The smaller of two balances.
pub open spec fn min_balance(a: Balance, b: Balance) -> Balance {
    if a <= b {
        a
    } else {
        b
    }
}

impl LedgerModel {
    /// The amount `who` holds under `reason`.
    pub open spec fn held(self, who: AccountId, reason: HoldReason) -> Balance {
        match reason {
            HoldReason::SponsorshipBudget => amount_in(self.budget, who),
            HoldReason::SponsorshipPending => amount_in(self.pending, who),
        }
    }

    /// What `who` holds under both reasons together.
    pub open spec fn held_total(self, who: AccountId) -> int {
        self.held(who, HoldReason::SponsorshipBudget) + self.held(who, HoldReason::SponsorshipPending)
    }

    /// Every account's holds together fit the balance type.
    pub open spec fn fits(self) -> bool {
        forall|who: AccountId| #[trigger] self.held_total(who) <= u128::MAX
    }

    /// The ledger with the amount `who` holds under `reason` set to `amount`.
    pub open spec fn with_held(self, who: AccountId, reason: HoldReason, amount: Balance) -> LedgerModel {
        match reason {
            HoldReason::SponsorshipBudget => LedgerModel {
                budget: self.budget.insert(who, amount),
                pending: self.pending,
            },
            HoldReason::SponsorshipPending => LedgerModel {
                budget: self.budget,
                pending: self.pending.insert(who, amount),
            },
        }
    }

    /// Placing `amount` on hold: the held amount grows by `amount` when the balances pallet
    /// accepts the hold, and nothing changes otherwise. Held funds come out of the same account's
    /// free balance, and an account's whole balance fits the balance type, so the balances pallet
    /// cannot accept a hold that would take the account's held total past the maximum: such a hold
    /// fails with `Overflow`.
    pub open spec fn after_hold(
        self,
        reason: HoldReason,
        who: AccountId,
        amount: Balance,
        verdict: Verdict,
    ) -> (LedgerModel, Result<(), BalancesError>) {
        match verdict {
            Err(e) => (self, Err(e)),
            Ok(_) => if self.held_total(who) + amount > u128::MAX {
                (self, Err(BalancesError::Overflow))
            } else {
                (self.with_held(who, reason, (self.held(who, reason) + amount) as u128), Ok(()))
            },
        }
    }

    /// Releasing up to `amount` from hold. A refusal by the balances pallet comes first; then an
    /// exact release of more than is held fails with `FundsUnavailable`; otherwise the held amount
    /// shrinks by the amount taken off hold (all of `amount` when exact, at most what is held when
    /// best effort), and the amount the balances pallet reports it returned to the free balance is
    /// returned: it can be less than the amount taken off hold, when the free balance cannot take
    /// it all.
    pub open spec fn after_release(
        self,
        reason: HoldReason,
        who: AccountId,
        amount: Balance,
        precision: Precision,
        verdict: Verdict,
    ) -> (LedgerModel, Result<Balance, BalancesError>) {
        let held = self.held(who, reason);
        match verdict {
            Err(e) => (self, Err(e)),
            Ok(freed) => {
                let taken = match precision {
                    Precision::Exact => amount,
                    Precision::BestEffort => min_balance(amount, held),
                };
                if taken > held {
                    (self, Err(BalancesError::FundsUnavailable))
                } else {
                    (self.with_held(who, reason, (held - taken) as u128), Ok(freed))
                }
            },
        }
    }

    /// Slashing up to `amount` from hold: as much as is held, up to `amount`, is taken and
    /// returned as the credit, and the shortfall is returned beside it. If the balances pallet
    /// cannot update the hold, nothing is taken and all of `amount` is short.
    pub open spec fn after_slash(
        self,
        reason: HoldReason,
        who: AccountId,
        amount: Balance,
        verdict: Verdict,
    ) -> (LedgerModel, (Balance, Balance)) {
        let held = self.held(who, reason);
        match verdict {
            Err(_) => (self, (0u128, amount)),
            Ok(_) => {
                let taken = min_balance(amount, held);
                (
                    self.with_held(who, reason, (held - taken) as u128),
                    (taken, (amount - taken) as u128),
                )
            },
        }
    }
}

/// The balances pallet's verdict on the `i`-th move of a call, from the verdicts handed back so
/// far; a move without a verdict counts as refused.
pub open spec fn verdict_at(verdicts: Seq<Verdict>, i: int) -> Verdict {
    if 0 <= i < verdicts.len() {
        verdicts[i]
    } else {
        Err(BalancesError::Other)
    }
}

/// Returns the verdict on the `i`-th move of a call, refused when there is none.
pub fn verdict_of(verdicts: &Vec<Verdict>, i: usize) -> (verdict: Verdict)
    ensures
        verdict == verdict_at(verdicts@, i as int),
{
    if i < verdicts.len() {
        verdicts[i]
    } else {
        Err(BalancesError::Other)
    }
}

/// The move a call asks the balances pallet for once `done` of its `moves` have been answered:
/// the next one, or none when every move has been made.
pub open spec fn next_move(moves: Seq<BalanceMove>, done: int) -> Option<BalanceMove> {
    if 0 <= done < moves.len() {
        Some(moves[done])
    } else {
        None
    }
}

/// The held amounts of sponsor accounts under the pallet's two hold reasons.
pub struct HoldLedger {
    budget: BTreeMap<AccountId, Balance>,
    pending: BTreeMap<AccountId, Balance>,
}

impl View for HoldLedger {
    type V = LedgerModel;

    closed spec fn view(&self) -> LedgerModel {
        LedgerModel { budget: self.budget@, pending: self.pending@ }
    }
}

impl HoldLedger {
    /// A ledger in which no account holds anything.
    pub fn new() -> (ledger: Self)
        ensures
            ledger@.budget == Map::<AccountId, Balance>::empty(),
            ledger@.pending == Map::<AccountId, Balance>::empty(),
            forall|who: AccountId, reason: HoldReason| ledger@.held(who, reason) == 0,
    {
        let ledger = HoldLedger { budget: BTreeMap::new(), pending: BTreeMap::new() };
        assert forall|who: AccountId, reason: HoldReason| ledger@.held(who, reason) == 0 by {}
        ledger
    }

    /// A ledger in which `who` holds `budget` and `pending` under the two reasons and no other
    /// account holds anything.
    pub fn with_amounts(who: AccountId, budget: Balance, pending: Balance) -> (ledger: Self)
        ensures
            ledger@.budget == Map::<AccountId, Balance>::empty().insert(who, budget),
            ledger@.pending == Map::<AccountId, Balance>::empty().insert(who, pending),
    {
        let mut ledger = HoldLedger { budget: BTreeMap::new(), pending: BTreeMap::new() };
        ledger.budget.insert(who, budget);
        ledger.pending.insert(who, pending);
        ledger
    }

    fn amount_of(map: &BTreeMap<AccountId, Balance>, who: AccountId) -> (amount: Balance)
        ensures
            amount == amount_in(map@, who),
    {
        match map.get(&who) {
            Some(amount) => *amount,
            None => 0,
        }
    }

    fn set_amount(&mut self, who: AccountId, reason: HoldReason, amount: Balance)
        ensures
            final(self)@ == old(self)@.with_held(who, reason, amount),
    {
        match reason {
            HoldReason::SponsorshipBudget => {
                self.budget.insert(who, amount);
            },
            HoldReason::SponsorshipPending => {
                self.pending.insert(who, amount);
            },
        }
    }

    /// The amount `who` holds under `reason`.
    pub fn balance_on_hold(&self, reason: HoldReason, who: AccountId) -> (amount: Balance)
        ensures
            amount == self@.held(who, reason),
    {
        match reason {
            HoldReason::SponsorshipBudget => Self::amount_of(&self.budget, who),
            HoldReason::SponsorshipPending => Self::amount_of(&self.pending, who),
        }
    }

    /// Applies a hold of `amount` of `who`'s funds under `reason`, on which the balances pallet
    /// gave `verdict`.
    pub fn hold(&mut self, reason: HoldReason, who: AccountId, amount: Balance, verdict: Verdict) -> (r:
        Result<(), BalancesError>)
        ensures
            (final(self)@, r) == old(self)@.after_hold(reason, who, amount, verdict),
    {
        match verdict {
            Err(e) => Err(e),
            Ok(_) => {
                let held = self.balance_on_hold(reason, who);
                let other = self.balance_on_hold(
                    match reason {
                        HoldReason::SponsorshipBudget => HoldReason::SponsorshipPending,
                        HoldReason::SponsorshipPending => HoldReason::SponsorshipBudget,
                    },
                    who,
                );
                let total = match held.checked_add(other) {
                    Some(total) => total,
                    None => return Err(BalancesError::Overflow),
                };
                if total.checked_add(amount).is_none() {
                    return Err(BalancesError::Overflow);
                }
                self.set_amount(who, reason, held + amount);
                Ok(())
            },
        }
    }

    /// Applies a release of up to `amount` of `who`'s funds held under `reason`, on which the
    /// balances pallet gave `verdict`, returning the amount it reports it freed.
    pub fn release(
        &mut self,
        reason: HoldReason,
        who: AccountId,
        amount: Balance,
        precision: Precision,
        verdict: Verdict,
    ) -> (r: Result<Balance, BalancesError>)
        ensures
            (final(self)@, r) == old(self)@.after_release(reason, who, amount, precision, verdict),
    {
        match verdict {
            Err(e) => Err(e),
            Ok(freed) => {
                let held = self.balance_on_hold(reason, who);
                let taken = match precision {
                    Precision::Exact => amount,
                    Precision::BestEffort => if amount <= held {
                        amount
                    } else {
                        held
                    },
                };
                if taken > held {
                    Err(BalancesError::FundsUnavailable)
                } else {
                    self.set_amount(who, reason, held - taken);
                    Ok(freed)
                }
            },
        }
    }

    /// Applies a slash of up to `amount` of `who`'s funds held under `reason`, on which the
    /// balances pallet gave `verdict`, returning the amount taken and the shortfall.
    pub fn slash(&mut self, reason: HoldReason, who: AccountId, amount: Balance, verdict: Verdict) -> (r:
        (Balance, Balance))
        ensures
            (final(self)@, r) == old(self)@.after_slash(reason, who, amount, verdict),
    {
        match verdict {
            Err(_) => (0, amount),
            Ok(_) => {
                let held = self.balance_on_hold(reason, who);
                let taken = if amount <= held {
                    amount
                } else {
                    held
                };
                self.set_amount(who, reason, held - taken);
                (taken, amount - taken)
            },
        }
    }
}

} // verus!
