//! The sponsor registry and the sponsor lifecycle calls.
//!
//! A sponsor registers a policy and escrows native balance on their own account as a hold under
//! `SponsorshipBudget`. In-flight sponsored transactions reserve their worst-case fee under
//! `SponsorshipPending`. Every call that moves funds decides its [`BalanceMove`]s itself and
//! leaves it to its caller to have the balances pallet perform them: a `..._move` function names
//! the next move given the verdicts on the moves made so far (none until all of the pallet's own
//! checks pass, and none once every move is made), and the call itself takes those verdicts and
//! applies them to its holds. A failed call changes nothing.
use crate::extension::{InvalidTransaction, TransactionValidityError};
use crate::holds::{
    next_move, verdict_at, verdict_of, BalanceMove, HoldLedger, LedgerModel, Precision,
};
use crate::types::{
    ensure_signed, same_account, spec_ensure_signed, AccountId, Balance, BalancesError,
    DispatchError, Error, Event, HoldReason, Origin, SponsorPolicy, SponsorState, Verdict,
};
use std::collections::BTreeMap;
use vstd::prelude::*;

verus! {

/// Whether some account occurs twice in `callers`.
pub open spec fn has_duplicate(callers: Seq<AccountId>) -> bool {
    exists|i: int, j: int| 0 <= i < j < callers.len() && callers[i] == callers[j]
}

/// The verdict on a policy's allowlist: it must be non-empty, then free of duplicates.
pub open spec fn policy_check(callers: Seq<AccountId>) -> Result<(), Error> {
    if callers.len() == 0 {
        Err(Error::EmptyAllowlist)
    } else if has_duplicate(callers) {
        Err(Error::DuplicateAllowedCaller)
    } else {
        Ok(())
    }
}

/// The pallet's state: the sponsor registry, the held amounts of the two hold reasons, and the
/// configured bound on allowlist length.
pub ghost struct PalletModel {
    pub sponsors: Map<AccountId, SponsorState>,
    pub holds: LedgerModel,
    pub max_allowed_callers: u32,
}

/// What became of the attempt to return a leftover reservation to the available budget.
#[derive(Clone, Copy, PartialEq, Eq, Structural, Debug)]
pub enum RestoreReport {
    /// Nothing was reserved, so nothing was done.
    NothingPending,
    /// The balances pallet refused to release the reservation; it stays reserved.
    ReleaseFailed(BalancesError),
    /// The release succeeded but freed nothing.
    NothingReleased,
    /// The freed reservation is available budget again.
    Restored(Balance),
    /// The reservation was freed but could not be held as budget again; it stays free balance.
    RestoreHoldFailed { released: Balance, error: BalancesError },
}

impl PalletModel {
    /// Available budget held by `who`.
    pub open spec fn budget(self, who: AccountId) -> Balance {
        self.holds.held(who, HoldReason::SponsorshipBudget)
    }

    /// Funds of `who` reserved for in-flight sponsored transactions.
    pub open spec fn pending(self, who: AccountId) -> Balance {
        self.holds.held(who, HoldReason::SponsorshipPending)
    }

    /// Whether `who` is a registered sponsor.
    pub open spec fn is_registered(self, who: AccountId) -> bool {
        self.sponsors.contains_key(who)
    }

    /// Whether a policy's allowlist fits the configured bound.
    pub open spec fn policy_fits(self, policy: SponsorPolicy) -> bool {
        policy.allowed_callers@.len() <= self.max_allowed_callers
    }

    /// Every registered sponsor has a valid policy within the configured bound.
    pub open spec fn policies_valid(self) -> bool {
        forall|who: AccountId|
            #[trigger] self.sponsors.contains_key(who) ==> {
                &&& policy_check(self.sponsors[who].policy.allowed_callers@) is Ok
                &&& self.policy_fits(self.sponsors[who].policy)
            }
    }

    /// No account outside the registry holds anything under the pallet's hold reasons.
    pub open spec fn no_orphaned_holds(self) -> bool {
        forall|who: AccountId|
            !#[trigger] self.sponsors.contains_key(who) ==> self.budget(who) == 0 && self.pending(
                who,
            ) == 0
    }

    /// The pallet's invariant: valid policies, holds that fit the balance type, and no holds
    /// outside the registry.
    pub open spec fn wf(self) -> bool {
        &&& self.policies_valid()
        &&& self.holds.fits()
        &&& self.no_orphaned_holds()
    }

    /// The same state with the ledger replaced.
    pub open spec fn with_holds(self, holds: LedgerModel) -> PalletModel {
        PalletModel { sponsors: self.sponsors, holds, max_allowed_callers: self.max_allowed_callers }
    }

    /// The same state with the registry replaced.
    pub open spec fn with_sponsors(self, sponsors: Map<AccountId, SponsorState>) -> PalletModel {
        PalletModel { sponsors, holds: self.holds, max_allowed_callers: self.max_allowed_callers }
    }
}

/// The checks of `register_sponsor`, in order: a signed caller, a non-zero budget, a caller not
/// yet registered, and a valid policy. The caller is the sponsor.
pub open spec fn register_checks(
    pre: PalletModel,
    origin: Origin,
    initial_budget: Balance,
    policy: SponsorPolicy,
) -> Result<AccountId, DispatchError> {
    match spec_ensure_signed(origin) {
        Err(e) => Err(e),
        Ok(sponsor) => if initial_budget == 0 {
            Err(DispatchError::Module(Error::ZeroBudget))
        } else if pre.is_registered(sponsor) {
            Err(DispatchError::Module(Error::AlreadyRegistered))
        } else {
            match policy_check(policy.allowed_callers@) {
                Err(e) => Err(DispatchError::Module(e)),
                Ok(_) => Ok(sponsor),
            }
        },
    }
}

/// The moves `register_sponsor` makes: once its checks pass, a hold of the initial budget.
pub open spec fn register_moves(
    pre: PalletModel,
    origin: Origin,
    initial_budget: Balance,
    policy: SponsorPolicy,
) -> Seq<BalanceMove> {
    match register_checks(pre, origin, initial_budget, policy) {
        Err(_) => Seq::empty(),
        Ok(sponsor) => seq![
            BalanceMove::Hold {
                reason: HoldReason::SponsorshipBudget,
                who: sponsor,
                amount: initial_budget,
            },
        ],
    }
}

/// `register_sponsor`: once the checks pass, the budget is placed on hold and the caller becomes
/// an active sponsor; `verdict` is the balances pallet's verdict on the hold.
pub open spec fn spec_register_sponsor(
    pre: PalletModel,
    origin: Origin,
    initial_budget: Balance,
    policy: SponsorPolicy,
    verdict: Verdict,
) -> (PalletModel, Result<Event, DispatchError>) {
    match register_checks(pre, origin, initial_budget, policy) {
        Err(e) => (pre, Err(e)),
        Ok(sponsor) => {
            let (holds, held) = pre.holds.after_hold(
                HoldReason::SponsorshipBudget,
                sponsor,
                initial_budget,
                verdict,
            );
            match held {
                Err(e) => (pre, Err(DispatchError::Balances(e))),
                Ok(_) => (
                    pre.with_holds(holds).with_sponsors(
                        pre.sponsors.insert(sponsor, SponsorState { active: true, policy }),
                    ),
                    Ok(Event::SponsorRegistered { sponsor, initial_budget }),
                ),
            }
        },
    }
}

/// The checks of `increase_budget`: a signed caller, a non-zero amount, a registered caller.
pub open spec fn increase_checks(pre: PalletModel, origin: Origin, amount: Balance) -> Result<
    AccountId,
    DispatchError,
> {
    match spec_ensure_signed(origin) {
        Err(e) => Err(e),
        Ok(sponsor) => if amount == 0 {
            Err(DispatchError::Module(Error::ZeroBudget))
        } else if !pre.is_registered(sponsor) {
            Err(DispatchError::Module(Error::NotRegistered))
        } else {
            Ok(sponsor)
        },
    }
}

/// The moves `increase_budget` makes: once its checks pass, a hold of the amount.
pub open spec fn increase_moves(pre: PalletModel, origin: Origin, amount: Balance) -> Seq<
    BalanceMove,
> {
    match increase_checks(pre, origin, amount) {
        Err(_) => Seq::empty(),
        Ok(sponsor) => seq![
            BalanceMove::Hold { reason: HoldReason::SponsorshipBudget, who: sponsor, amount },
        ],
    }
}

/// `increase_budget`: once the checks pass, a further amount is placed on budget hold.
pub open spec fn spec_increase_budget(
    pre: PalletModel,
    origin: Origin,
    amount: Balance,
    verdict: Verdict,
) -> (PalletModel, Result<Event, DispatchError>) {
    match increase_checks(pre, origin, amount) {
        Err(e) => (pre, Err(e)),
        Ok(sponsor) => {
            let (holds, held) = pre.holds.after_hold(
                HoldReason::SponsorshipBudget,
                sponsor,
                amount,
                verdict,
            );
            match held {
                Err(e) => (pre, Err(DispatchError::Balances(e))),
                Ok(_) => (
                    pre.with_holds(holds),
                    Ok(
                        Event::BudgetIncreased {
                            sponsor,
                            amount,
                            new_budget: holds.held(sponsor, HoldReason::SponsorshipBudget),
                        },
                    ),
                ),
            }
        },
    }
}

/// The checks of `decrease_budget`: a signed caller, a non-zero amount, a registered caller, and
/// an available budget of at least the amount.
pub open spec fn decrease_checks(pre: PalletModel, origin: Origin, amount: Balance) -> Result<
    AccountId,
    DispatchError,
> {
    match spec_ensure_signed(origin) {
        Err(e) => Err(e),
        Ok(sponsor) => if amount == 0 {
            Err(DispatchError::Module(Error::ZeroBudget))
        } else if !pre.is_registered(sponsor) {
            Err(DispatchError::Module(Error::NotRegistered))
        } else if pre.budget(sponsor) < amount {
            Err(DispatchError::Module(Error::InsufficientAvailableBudget))
        } else {
            Ok(sponsor)
        },
    }
}

/// The moves `decrease_budget` makes: once its checks pass, an exact release of the amount.
pub open spec fn decrease_moves(pre: PalletModel, origin: Origin, amount: Balance) -> Seq<
    BalanceMove,
> {
    match decrease_checks(pre, origin, amount) {
        Err(_) => Seq::empty(),
        Ok(sponsor) => seq![
            BalanceMove::Release {
                reason: HoldReason::SponsorshipBudget,
                who: sponsor,
                amount,
                precision: Precision::Exact,
            },
        ],
    }
}

/// `decrease_budget`: once the checks pass, the amount is released from the budget hold.
pub open spec fn spec_decrease_budget(
    pre: PalletModel,
    origin: Origin,
    amount: Balance,
    verdict: Verdict,
) -> (PalletModel, Result<Event, DispatchError>) {
    match decrease_checks(pre, origin, amount) {
        Err(e) => (pre, Err(e)),
        Ok(sponsor) => {
            let (holds, released) = pre.holds.after_release(
                HoldReason::SponsorshipBudget,
                sponsor,
                amount,
                Precision::Exact,
                verdict,
            );
            match released {
                Err(e) => (pre, Err(DispatchError::Balances(e))),
                Ok(_) => (
                    pre.with_holds(holds),
                    Ok(
                        Event::BudgetDecreased {
                            sponsor,
                            amount,
                            new_budget: holds.held(sponsor, HoldReason::SponsorshipBudget),
                        },
                    ),
                ),
            }
        },
    }
}

/// `set_policy`: a registered sponsor replaces their policy with a valid one, keeping their
/// active or paused state.
pub open spec fn spec_set_policy(pre: PalletModel, origin: Origin, policy: SponsorPolicy) -> (
    PalletModel,
    Result<Event, DispatchError>,
) {
    match spec_ensure_signed(origin) {
        Err(e) => (pre, Err(e)),
        Ok(sponsor) => match policy_check(policy.allowed_callers@) {
            Err(e) => (pre, Err(DispatchError::Module(e))),
            Ok(_) => if !pre.is_registered(sponsor) {
                (pre, Err(DispatchError::Module(Error::NotRegistered)))
            } else {
                (
                    pre.with_sponsors(
                        pre.sponsors.insert(
                            sponsor,
                            SponsorState { active: pre.sponsors[sponsor].active, policy },
                        ),
                    ),
                    Ok(Event::SponsorPolicyUpdated { sponsor }),
                )
            },
        },
    }
}

/// `pause` (when `active` is false) and `resume` (when `active` is true): a registered sponsor
/// switches between active and paused; switching to the state it is in already fails.
pub open spec fn spec_set_active(pre: PalletModel, origin: Origin, active: bool) -> (
    PalletModel,
    Result<Event, DispatchError>,
) {
    match spec_ensure_signed(origin) {
        Err(e) => (pre, Err(e)),
        Ok(sponsor) => if !pre.is_registered(sponsor) {
            (pre, Err(DispatchError::Module(Error::NotRegistered)))
        } else if pre.sponsors[sponsor].active == active {
            (
                pre,
                Err(
                    DispatchError::Module(
                        if active {
                            Error::AlreadyActive
                        } else {
                            Error::AlreadyPaused
                        },
                    ),
                ),
            )
        } else {
            (
                pre.with_sponsors(
                    pre.sponsors.insert(
                        sponsor,
                        SponsorState { active, policy: pre.sponsors[sponsor].policy },
                    ),
                ),
                Ok(
                    if active {
                        Event::SponsorResumed { sponsor }
                    } else {
                        Event::SponsorPaused { sponsor }
                    },
                ),
            )
        },
    }
}

/// The checks of `unregister`: a signed caller, registered, with nothing pending.
pub open spec fn unregister_checks(pre: PalletModel, origin: Origin) -> Result<
    AccountId,
    DispatchError,
> {
    match spec_ensure_signed(origin) {
        Err(e) => Err(e),
        Ok(sponsor) => if !pre.is_registered(sponsor) {
            Err(DispatchError::Module(Error::NotRegistered))
        } else if pre.pending(sponsor) != 0 {
            Err(DispatchError::Module(Error::PendingBudgetNotEmpty))
        } else {
            Ok(sponsor)
        },
    }
}

/// The moves `unregister` makes: once its checks pass, an exact release of the whole budget,
/// unless the budget is empty.
pub open spec fn unregister_moves(pre: PalletModel, origin: Origin) -> Seq<BalanceMove> {
    match unregister_checks(pre, origin) {
        Err(_) => Seq::empty(),
        Ok(sponsor) => if pre.budget(sponsor) == 0 {
            Seq::empty()
        } else {
            seq![
                BalanceMove::Release {
                    reason: HoldReason::SponsorshipBudget,
                    who: sponsor,
                    amount: pre.budget(sponsor),
                    precision: Precision::Exact,
                },
            ]
        },
    }
}

/// `unregister`: once the checks pass, the whole budget is released and the sponsor leaves the
/// registry; `verdict` is the balances pallet's verdict on the release.
pub open spec fn spec_unregister(pre: PalletModel, origin: Origin, verdict: Verdict) -> (
    PalletModel,
    Result<Event, DispatchError>,
) {
    match unregister_checks(pre, origin) {
        Err(e) => (pre, Err(e)),
        Ok(sponsor) => if pre.budget(sponsor) == 0 {
            (
                pre.with_sponsors(pre.sponsors.remove(sponsor)),
                Ok(Event::SponsorUnregistered { sponsor }),
            )
        } else {
            let (holds, released) = pre.holds.after_release(
                HoldReason::SponsorshipBudget,
                sponsor,
                pre.budget(sponsor),
                Precision::Exact,
                verdict,
            );
            match released {
                Err(e) => (pre, Err(DispatchError::Balances(e))),
                Ok(_) => (
                    pre.with_holds(holds).with_sponsors(pre.sponsors.remove(sponsor)),
                    Ok(Event::SponsorUnregistered { sponsor }),
                ),
            }
        },
    }
}

/// The moves that reserve `amount` for `who`: an exact release from the budget hold, then, if the
/// release went through, a hold under pending.
pub open spec fn reserve_moves(
    pre: LedgerModel,
    who: AccountId,
    amount: Balance,
    release_verdict: Verdict,
) -> Seq<BalanceMove> {
    let release = BalanceMove::Release {
        reason: HoldReason::SponsorshipBudget,
        who,
        amount,
        precision: Precision::Exact,
    };
    if pre.after_release(
        HoldReason::SponsorshipBudget,
        who,
        amount,
        Precision::Exact,
        release_verdict,
    ).1 is Ok {
        seq![release, BalanceMove::Hold { reason: HoldReason::SponsorshipPending, who, amount }]
    } else {
        seq![release]
    }
}

/// Moving `amount` from `who`'s budget hold to their pending hold. If the hold fails after the
/// release, the released funds stay free. Either failure is reported as a payment failure.
pub open spec fn spec_move_budget_to_pending(
    pre: LedgerModel,
    who: AccountId,
    amount: Balance,
    release_verdict: Verdict,
    hold_verdict: Verdict,
) -> (LedgerModel, Result<(), TransactionValidityError>) {
    let (released_ledger, released) = pre.after_release(
        HoldReason::SponsorshipBudget,
        who,
        amount,
        Precision::Exact,
        release_verdict,
    );
    match released {
        Err(_) => (pre, Err(TransactionValidityError::Invalid(InvalidTransaction::Payment))),
        Ok(_) => {
            let (held_ledger, held) = released_ledger.after_hold(
                HoldReason::SponsorshipPending,
                who,
                amount,
                hold_verdict,
            );
            match held {
                Err(_) => (
                    released_ledger,
                    Err(TransactionValidityError::Invalid(InvalidTransaction::Payment)),
                ),
                Ok(_) => (held_ledger, Ok(())),
            }
        },
    }
}

/// The moves that return `who`'s pending hold to the budget: nothing when nothing is pending;
/// otherwise a best-effort release of the whole pending amount, then, if it freed something, a
/// hold under budget of what it freed.
pub open spec fn restore_moves(pre: LedgerModel, who: AccountId, release_verdict: Verdict) -> Seq<
    BalanceMove,
> {
    let pending = pre.held(who, HoldReason::SponsorshipPending);
    if pending == 0 {
        Seq::empty()
    } else {
        let release = BalanceMove::Release {
            reason: HoldReason::SponsorshipPending,
            who,
            amount: pending,
            precision: Precision::BestEffort,
        };
        match pre.after_release(
            HoldReason::SponsorshipPending,
            who,
            pending,
            Precision::BestEffort,
            release_verdict,
        ).1 {
            Ok(amount) => if amount == 0 {
                seq![release]
            } else {
                seq![
                    release,
                    BalanceMove::Hold { reason: HoldReason::SponsorshipBudget, who, amount },
                ]
            },
            Err(_) => seq![release],
        }
    }
}

/// Returning whatever is left of `who`'s pending hold to their budget hold.
pub open spec fn spec_restore_pending_to_budget(
    pre: LedgerModel,
    who: AccountId,
    release_verdict: Verdict,
    hold_verdict: Verdict,
) -> (LedgerModel, RestoreReport) {
    let pending = pre.held(who, HoldReason::SponsorshipPending);
    if pending == 0 {
        (pre, RestoreReport::NothingPending)
    } else {
        let (released_ledger, released) = pre.after_release(
            HoldReason::SponsorshipPending,
            who,
            pending,
            Precision::BestEffort,
            release_verdict,
        );
        match released {
            Err(e) => (pre, RestoreReport::ReleaseFailed(e)),
            Ok(amount) => if amount == 0 {
                (released_ledger, RestoreReport::NothingReleased)
            } else {
                let (held_ledger, held) = released_ledger.after_hold(
                    HoldReason::SponsorshipBudget,
                    who,
                    amount,
                    hold_verdict,
                );
                match held {
                    Err(e) => (
                        released_ledger,
                        RestoreReport::RestoreHoldFailed { released: amount, error: e },
                    ),
                    Ok(_) => (held_ledger, RestoreReport::Restored(amount)),
                }
            },
        }
    }
}

/// A state that differs from a well-formed one only at `who` is well formed when `who` itself is:
/// a valid policy if registered, no holds if not, and holds that fit the balance type.
pub(crate) proof fn lemma_wf_local(pre: PalletModel, post: PalletModel, who: AccountId)
    requires
        pre.wf(),
        post.max_allowed_callers == pre.max_allowed_callers,
        forall|other: AccountId|
            other != who ==> (#[trigger] post.sponsors.contains_key(other)
                == pre.sponsors.contains_key(other)),
        forall|other: AccountId|
            other != who && pre.sponsors.contains_key(other) ==> #[trigger] post.sponsors[other]
                == pre.sponsors[other],
        forall|other: AccountId, reason: HoldReason|
            other != who ==> #[trigger] post.holds.held(other, reason) == pre.holds.held(
                other,
                reason,
            ),
        post.holds.held_total(who) <= u128::MAX || post.holds.held_total(who)
            <= pre.holds.held_total(who),
        post.sponsors.contains_key(who) ==> policy_check(
            post.sponsors[who].policy.allowed_callers@,
        ) is Ok && post.policy_fits(post.sponsors[who].policy),
        !post.sponsors.contains_key(who) ==> post.budget(who) == 0 && post.pending(who) == 0,
    ensures
        post.wf(),
{
    assert(pre.holds.held_total(who) <= u128::MAX);
    assert forall|other: AccountId| #[trigger] post.holds.held_total(other) <= u128::MAX by {
        if other != who {
            assert(post.holds.held(other, HoldReason::SponsorshipBudget) == pre.holds.held(
                other,
                HoldReason::SponsorshipBudget,
            ));
            assert(post.holds.held(other, HoldReason::SponsorshipPending) == pre.holds.held(
                other,
                HoldReason::SponsorshipPending,
            ));
            assert(pre.holds.held_total(other) <= u128::MAX);
        }
    }
    assert forall|other: AccountId| !#[trigger] post.sponsors.contains_key(other) implies post.budget(
        other,
    ) == 0 && post.pending(other) == 0 by {
        if other != who {
            assert(post.holds.held(other, HoldReason::SponsorshipBudget) == pre.holds.held(
                other,
                HoldReason::SponsorshipBudget,
            ));
            assert(post.holds.held(other, HoldReason::SponsorshipPending) == pre.holds.held(
                other,
                HoldReason::SponsorshipPending,
            ));
        }
    }
    assert forall|other: AccountId| #[trigger] post.sponsors.contains_key(other) implies {
        &&& policy_check(post.sponsors[other].policy.allowed_callers@) is Ok
        &&& post.policy_fits(post.sponsors[other].policy)
    } by {
        if other != who {
            assert(pre.sponsors.contains_key(other));
        }
    }
}

/// The sponsored-fee pallet: its sponsor registry and the sponsor holds it manages.
pub struct Pallet {
    sponsors: BTreeMap<AccountId, SponsorState>,
    holds: HoldLedger,
    max_allowed_callers: u32,
}

impl View for Pallet {
    type V = PalletModel;

    closed spec fn view(&self) -> PalletModel {
        PalletModel {
            sponsors: self.sponsors@,
            holds: self.holds@,
            max_allowed_callers: self.max_allowed_callers,
        }
    }
}

impl Pallet {
    /// A pallet with no sponsors and no holds, allowing at most `max_allowed_callers` callers per
    /// allowlist.
    pub fn new(max_allowed_callers: u32) -> (pallet: Self)
        ensures
            pallet@.wf(),
            pallet@.sponsors == Map::<AccountId, SponsorState>::empty(),
            pallet@.holds.budget == Map::<AccountId, Balance>::empty(),
            pallet@.holds.pending == Map::<AccountId, Balance>::empty(),
            forall|who: AccountId, reason: HoldReason| pallet@.holds.held(who, reason) == 0,
            pallet@.max_allowed_callers == max_allowed_callers,
    {
        Pallet { sponsors: BTreeMap::new(), holds: HoldLedger::new(), max_allowed_callers }
    }

    /// A pallet holding what a call about `who` reads: `who`'s registration, if any, and the
    /// amounts `who` holds under the two reasons. `None` when these break the pallet's invariant:
    /// a registration whose policy is not valid within the bound, holds without a registration,
    /// or holds that together exceed the balance type.
    pub fn with_account(
        max_allowed_callers: u32,
        who: AccountId,
        state: Option<SponsorState>,
        budget: Balance,
        pending: Balance,
    ) -> (pallet: Option<Self>)
        ensures
            pallet is None <==> {
                ||| budget + pending > u128::MAX
                ||| (state is None && (budget != 0 || pending != 0))
                ||| (state matches Some(s) && !(policy_check(s.policy.allowed_callers@) is Ok
                    && s.policy.allowed_callers@.len() <= max_allowed_callers))
            },
            pallet matches Some(p) ==> {
                &&& p@.wf()
                &&& p@.max_allowed_callers == max_allowed_callers
                &&& p@.sponsors == match state {
                    Some(s) => Map::<AccountId, SponsorState>::empty().insert(who, s),
                    None => Map::<AccountId, SponsorState>::empty(),
                }
                &&& p@.holds.budget == Map::<AccountId, Balance>::empty().insert(who, budget)
                &&& p@.holds.pending == Map::<AccountId, Balance>::empty().insert(who, pending)
            },
    {
        if budget.checked_add(pending).is_none() {
            return None;
        }
        let mut sponsors = BTreeMap::new();
        match state {
            Some(s) => {
                if Self::ensure_valid_policy(&s.policy).is_err() {
                    return None;
                }
                if s.policy.allowed_callers.len() > max_allowed_callers as usize {
                    return None;
                }
                sponsors.insert(who, s);
            },
            None => {
                if budget != 0 || pending != 0 {
                    return None;
                }
            },
        }
        let pallet = Pallet {
            sponsors,
            holds: HoldLedger::with_amounts(who, budget, pending),
            max_allowed_callers,
        };
        assert forall|other: AccountId| #[trigger] pallet@.holds.held_total(other) <= u128::MAX by {
            if other != who {
                assert(pallet@.budget(other) == 0);
                assert(pallet@.pending(other) == 0);
            }
        }
        Some(pallet)
    }

    /// The configured bound on allowlist length.
    pub fn max_allowed_callers(&self) -> (bound: u32)
        ensures
            bound == self@.max_allowed_callers,
    {
        self.max_allowed_callers
    }

    /// Available budget held by `who`.
    pub fn budget_on_hold(&self, who: AccountId) -> (amount: Balance)
        ensures
            amount == self@.budget(who),
    {
        self.holds.balance_on_hold(HoldReason::SponsorshipBudget, who)
    }

    /// Funds of `who` reserved for in-flight sponsored transactions.
    pub fn pending_on_hold(&self, who: AccountId) -> (amount: Balance)
        ensures
            amount == self@.pending(who),
    {
        self.holds.balance_on_hold(HoldReason::SponsorshipPending, who)
    }

    /// The registered state of `who`, if any.
    pub fn sponsor_state(&self, who: AccountId) -> (state: Option<&SponsorState>)
        ensures
            match state {
                Some(s) => self@.sponsors.contains_key(who) && *s == self@.sponsors[who],
                None => !self@.sponsors.contains_key(who),
            },
    {
        self.sponsors.get(&who)
    }

    /// Succeeds exactly when `who` is a registered sponsor.
    pub fn ensure_registered(&self, who: AccountId) -> (r: Result<(), Error>)
        ensures
            r == if self@.is_registered(who) {
                Ok::<(), Error>(())
            } else {
                Err(Error::NotRegistered)
            },
    {
        if self.sponsors.contains_key(&who) {
            Ok(())
        } else {
            Err(Error::NotRegistered)
        }
    }

    /// Checks that a policy's allowlist is non-empty and free of duplicates.
    pub fn ensure_valid_policy(policy: &SponsorPolicy) -> (r: Result<(), Error>)
        ensures
            r == policy_check(policy.allowed_callers@),
    {
        let callers = &policy.allowed_callers;
        let n = callers.len();
        if n == 0 {
            return Err(Error::EmptyAllowlist);
        }
        let mut idx: usize = 0;
        while idx < n
            invariant
                n == callers@.len(),
                callers@ == policy.allowed_callers@,
                n > 0,
                idx <= n,
                forall|i: int, j: int| 0 <= i < idx && i < j < n ==> callers@[i] != callers@[j],
            decreases n - idx,
        {
            let caller = callers[idx];
            let mut k: usize = idx + 1;
            while k < n
                invariant
                    n == callers@.len(),
                    callers@ == policy.allowed_callers@,
                    idx < n,
                    idx + 1 <= k <= n,
                    caller == callers@[idx as int],
                    forall|j: int| idx < j < k ==> callers@[j] != caller,
                decreases n - k,
            {
                if same_account(callers[k], caller) {
                    assert(callers@[idx as int] == callers@[k as int]);
                    return Err(Error::DuplicateAllowedCaller);
                }
                k += 1;
            }
            idx += 1;
        }
        Ok(())
    }

    fn check_register(
        &self,
        origin: Origin,
        initial_budget: Balance,
        policy: &SponsorPolicy,
    ) -> (r: Result<AccountId, DispatchError>)
        ensures
            r == register_checks(self@, origin, initial_budget, *policy),
    {
        let sponsor = match ensure_signed(origin) {
            Ok(sponsor) => sponsor,
            Err(e) => return Err(e),
        };
        if initial_budget == 0 {
            return Err(DispatchError::Module(Error::ZeroBudget));
        }
        if self.sponsors.contains_key(&sponsor) {
            return Err(DispatchError::Module(Error::AlreadyRegistered));
        }
        if let Err(e) = Self::ensure_valid_policy(policy) {
            return Err(DispatchError::Module(e));
        }
        Ok(sponsor)
    }

    /// The balance move `register_sponsor` asks for, given the verdicts on the moves it asked
    /// for so far: once its checks pass, the hold of the initial budget; after that, none.
    pub fn register_sponsor_move(
        &self,
        origin: Origin,
        initial_budget: Balance,
        policy: &SponsorPolicy,
        verdicts: &Vec<Verdict>,
    ) -> (m: Option<BalanceMove>)
        ensures
            m == next_move(
                register_moves(self@, origin, initial_budget, *policy),
                verdicts@.len() as int,
            ),
    {
        match self.check_register(origin, initial_budget, policy) {
            Err(_) => None,
            Ok(sponsor) => if verdicts.len() == 0 {
                Some(
                    BalanceMove::Hold {
                        reason: HoldReason::SponsorshipBudget,
                        who: sponsor,
                        amount: initial_budget,
                    },
                )
            } else {
                None
            },
        }
    }

    /// Registers the caller as a sponsor and places the initial budget on hold. `verdicts` are
    /// the balances pallet's verdicts on the moves `register_sponsor_move` asked for, in order.
    pub fn register_sponsor(
        &mut self,
        origin: Origin,
        initial_budget: Balance,
        policy: SponsorPolicy,
        verdicts: &Vec<Verdict>,
    ) -> (r: Result<Event, DispatchError>)
        requires
            old(self)@.wf(),
            old(self)@.policy_fits(policy),
        ensures
            final(self)@.wf(),
            (final(self)@, r) == spec_register_sponsor(
                old(self)@,
                origin,
                initial_budget,
                policy,
                verdict_at(verdicts@, 0),
            ),
    {
        let sponsor = match self.check_register(origin, initial_budget, &policy) {
            Ok(sponsor) => sponsor,
            Err(e) => return Err(e),
        };
        let verdict = verdict_of(verdicts, 0);
        let ghost registered_policy = policy;
        if let Err(e) = self.holds.hold(
            HoldReason::SponsorshipBudget,
            sponsor,
            initial_budget,
            verdict,
        ) {
            return Err(DispatchError::Balances(e));
        }
        self.sponsors.insert(sponsor, SponsorState { active: true, policy });
        proof {
            lemma_wf_local(old(self)@, self@, sponsor);
        }
        let r = Ok(Event::SponsorRegistered { sponsor, initial_budget });
        assert((self@, r) == spec_register_sponsor(
            old(self)@,
            origin,
            initial_budget,
            registered_policy,
            verdict,
        ));
        r
    }


    fn check_increase(&self, origin: Origin, amount: Balance) -> (r: Result<
        AccountId,
        DispatchError,
    >)
        ensures
            r == increase_checks(self@, origin, amount),
    {
        let sponsor = match ensure_signed(origin) {
            Ok(sponsor) => sponsor,
            Err(e) => return Err(e),
        };
        if amount == 0 {
            return Err(DispatchError::Module(Error::ZeroBudget));
        }
        if let Err(e) = self.ensure_registered(sponsor) {
            return Err(DispatchError::Module(e));
        }
        Ok(sponsor)
    }

    /// The balance move `increase_budget` asks for, given the verdicts on the moves it asked for
    /// so far: once its checks pass, a hold of the amount under budget; after that, none.
    pub fn increase_budget_move(&self, origin: Origin, amount: Balance, verdicts: &Vec<Verdict>) -> (m:
        Option<BalanceMove>)
        ensures
            m == next_move(increase_moves(self@, origin, amount), verdicts@.len() as int),
    {
        match self.check_increase(origin, amount) {
            Err(_) => None,
            Ok(sponsor) => if verdicts.len() == 0 {
                Some(BalanceMove::Hold { reason: HoldReason::SponsorshipBudget, who: sponsor, amount })
            } else {
                None
            },
        }
    }

    /// Increases the caller's available sponsored-fee budget. `verdicts` are the balances
    /// pallet's verdicts on the moves `increase_budget_move` asked for, in order.
    pub fn increase_budget(&mut self, origin: Origin, amount: Balance, verdicts: &Vec<Verdict>) -> (r:
        Result<Event, DispatchError>)
        requires
            old(self)@.wf(),
        ensures
            final(self)@.wf(),
            (final(self)@, r) == spec_increase_budget(
                old(self)@,
                origin,
                amount,
                verdict_at(verdicts@, 0),
            ),
    {
        let sponsor = match self.check_increase(origin, amount) {
            Ok(sponsor) => sponsor,
            Err(e) => return Err(e),
        };
        let verdict = verdict_of(verdicts, 0);
        if let Err(e) = self.holds.hold(HoldReason::SponsorshipBudget, sponsor, amount, verdict) {
            return Err(DispatchError::Balances(e));
        }
        proof {
            lemma_wf_local(old(self)@, self@, sponsor);
        }
        let new_budget = self.budget_on_hold(sponsor);
        let r = Ok(Event::BudgetIncreased { sponsor, amount, new_budget });
        assert((self@, r) == spec_increase_budget(old(self)@, origin, amount, verdict));
        r
    }


    fn check_decrease(&self, origin: Origin, amount: Balance) -> (r: Result<
        AccountId,
        DispatchError,
    >)
        ensures
            r == decrease_checks(self@, origin, amount),
    {
        let sponsor = match ensure_signed(origin) {
            Ok(sponsor) => sponsor,
            Err(e) => return Err(e),
        };
        if amount == 0 {
            return Err(DispatchError::Module(Error::ZeroBudget));
        }
        if let Err(e) = self.ensure_registered(sponsor) {
            return Err(DispatchError::Module(e));
        }
        if self.budget_on_hold(sponsor) < amount {
            return Err(DispatchError::Module(Error::InsufficientAvailableBudget));
        }
        Ok(sponsor)
    }

    /// The balance move `decrease_budget` asks for, given the verdicts on the moves it asked for
    /// so far: once its checks pass, an exact release of the amount from budget; after that,
    /// none.
    pub fn decrease_budget_move(&self, origin: Origin, amount: Balance, verdicts: &Vec<Verdict>) -> (m:
        Option<BalanceMove>)
        ensures
            m == next_move(decrease_moves(self@, origin, amount), verdicts@.len() as int),
    {
        match self.check_decrease(origin, amount) {
            Err(_) => None,
            Ok(sponsor) => if verdicts.len() == 0 {
                Some(
                    BalanceMove::Release {
                        reason: HoldReason::SponsorshipBudget,
                        who: sponsor,
                        amount,
                        precision: Precision::Exact,
                    },
                )
            } else {
                None
            },
        }
    }

    /// Releases part of the caller's available sponsored-fee budget. `verdicts` are the balances
    /// pallet's verdicts on the moves `decrease_budget_move` asked for, in order.
    pub fn decrease_budget(&mut self, origin: Origin, amount: Balance, verdicts: &Vec<Verdict>) -> (r:
        Result<Event, DispatchError>)
        requires
            old(self)@.wf(),
        ensures
            final(self)@.wf(),
            (final(self)@, r) == spec_decrease_budget(
                old(self)@,
                origin,
                amount,
                verdict_at(verdicts@, 0),
            ),
    {
        let sponsor = match self.check_decrease(origin, amount) {
            Ok(sponsor) => sponsor,
            Err(e) => return Err(e),
        };
        let verdict = verdict_of(verdicts, 0);
        if let Err(e) = self.holds.release(
            HoldReason::SponsorshipBudget,
            sponsor,
            amount,
            Precision::Exact,
            verdict,
        ) {
            return Err(DispatchError::Balances(e));
        }
        proof {
            lemma_wf_local(old(self)@, self@, sponsor);
        }
        let new_budget = self.budget_on_hold(sponsor);
        let r = Ok(Event::BudgetDecreased { sponsor, amount, new_budget });
        assert((self@, r) == spec_decrease_budget(old(self)@, origin, amount, verdict));
        r
    }


    /// Replaces the caller's sponsorship policy.
    pub fn set_policy(&mut self, origin: Origin, policy: SponsorPolicy) -> (r: Result<
        Event,
        DispatchError,
    >)
        requires
            old(self)@.wf(),
            old(self)@.policy_fits(policy),
        ensures
            final(self)@.wf(),
            (final(self)@, r) == spec_set_policy(old(self)@, origin, policy),
    {
        let sponsor = match ensure_signed(origin) {
            Ok(sponsor) => sponsor,
            Err(e) => return Err(e),
        };
        if let Err(e) = Self::ensure_valid_policy(&policy) {
            return Err(DispatchError::Module(e));
        }
        match self.sponsors.remove(&sponsor) {
            None => {
                assert(self.sponsors@ =~= old(self).sponsors@);
                Err(DispatchError::Module(Error::NotRegistered))
            },
            Some(state) => {
                let active = state.active;
                self.sponsors.insert(sponsor, SponsorState { active, policy });
                assert(self.sponsors@ =~= old(self).sponsors@.insert(
                    sponsor,
                    SponsorState { active, policy },
                ));
                proof {
                    lemma_wf_local(old(self)@, self@, sponsor);
                }
                Ok(Event::SponsorPolicyUpdated { sponsor })
            },
        }
    }

    fn set_active(&mut self, origin: Origin, active: bool) -> (r: Result<Event, DispatchError>)
        requires
            old(self)@.wf(),
        ensures
            final(self)@.wf(),
            (final(self)@, r) == spec_set_active(old(self)@, origin, active),
    {
        let sponsor = match ensure_signed(origin) {
            Ok(sponsor) => sponsor,
            Err(e) => return Err(e),
        };
        match self.sponsors.remove(&sponsor) {
            None => {
                assert(self.sponsors@ =~= old(self).sponsors@);
                Err(DispatchError::Module(Error::NotRegistered))
            },
            Some(state) => {
                if state.active == active {
                    self.sponsors.insert(sponsor, state);
                    assert(self.sponsors@ =~= old(self).sponsors@);
                    if active {
                        Err(DispatchError::Module(Error::AlreadyActive))
                    } else {
                        Err(DispatchError::Module(Error::AlreadyPaused))
                    }
                } else {
                    let policy = state.policy;
                    self.sponsors.insert(sponsor, SponsorState { active, policy });
                    assert(self.sponsors@ =~= old(self).sponsors@.insert(
                        sponsor,
                        SponsorState { active, policy },
                    ));
                    proof {
                        lemma_wf_local(old(self)@, self@, sponsor);
                    }
                    if active {
                        Ok(Event::SponsorResumed { sponsor })
                    } else {
                        Ok(Event::SponsorPaused { sponsor })
                    }
                }
            },
        }
    }

    /// Pauses the caller so future sponsored transactions fail validation.
    pub fn pause(&mut self, origin: Origin) -> (r: Result<Event, DispatchError>)
        requires
            old(self)@.wf(),
        ensures
            final(self)@.wf(),
            (final(self)@, r) == spec_set_active(old(self)@, origin, false),
    {
        self.set_active(origin, false)
    }

    /// Resumes the caller so future sponsored transactions may validate again.
    pub fn resume(&mut self, origin: Origin) -> (r: Result<Event, DispatchError>)
        requires
            old(self)@.wf(),
        ensures
            final(self)@.wf(),
            (final(self)@, r) == spec_set_active(old(self)@, origin, true),
    {
        self.set_active(origin, true)
    }

    fn check_unregister(&self, origin: Origin) -> (r: Result<AccountId, DispatchError>)
        ensures
            r == unregister_checks(self@, origin),
    {
        let sponsor = match ensure_signed(origin) {
            Ok(sponsor) => sponsor,
            Err(e) => return Err(e),
        };
        if let Err(e) = self.ensure_registered(sponsor) {
            return Err(DispatchError::Module(e));
        }
        if self.pending_on_hold(sponsor) != 0 {
            return Err(DispatchError::Module(Error::PendingBudgetNotEmpty));
        }
        Ok(sponsor)
    }

    /// The balance move `unregister` asks for, given the verdicts on the moves it asked for so
    /// far: once its checks pass and if the budget is not empty, an exact release of the whole
    /// budget; after that, none.
    pub fn unregister_move(&self, origin: Origin, verdicts: &Vec<Verdict>) -> (m: Option<BalanceMove>)
        ensures
            m == next_move(unregister_moves(self@, origin), verdicts@.len() as int),
    {
        match self.check_unregister(origin) {
            Err(_) => None,
            Ok(sponsor) => {
                let budget = self.budget_on_hold(sponsor);
                if budget != 0 && verdicts.len() == 0 {
                    Some(
                        BalanceMove::Release {
                            reason: HoldReason::SponsorshipBudget,
                            who: sponsor,
                            amount: budget,
                            precision: Precision::Exact,
                        },
                    )
                } else {
                    None
                }
            },
        }
    }

    /// Removes the caller as a sponsor and releases any remaining available budget. `verdicts`
    /// are the balances pallet's verdicts on the moves `unregister_move` asked for, in order.
    pub fn unregister(&mut self, origin: Origin, verdicts: &Vec<Verdict>) -> (r: Result<
        Event,
        DispatchError,
    >)
        requires
            old(self)@.wf(),
        ensures
            final(self)@.wf(),
            (final(self)@, r) == spec_unregister(old(self)@, origin, verdict_at(verdicts@, 0)),
    {
        let sponsor = match self.check_unregister(origin) {
            Ok(sponsor) => sponsor,
            Err(e) => return Err(e),
        };
        let verdict = verdict_of(verdicts, 0);
        let budget = self.budget_on_hold(sponsor);
        if budget != 0 {
            if let Err(e) = self.holds.release(
                HoldReason::SponsorshipBudget,
                sponsor,
                budget,
                Precision::Exact,
                verdict,
            ) {
                return Err(DispatchError::Balances(e));
            }
        }
        self.sponsors.remove(&sponsor);
        proof {
            lemma_wf_local(old(self)@, self@, sponsor);
        }
        let r = Ok(Event::SponsorUnregistered { sponsor });
        assert((self@, r) == spec_unregister(old(self)@, origin, verdict));
        r
    }

    /// The balance move `move_budget_to_pending` asks for, given the verdicts on the moves it
    /// asked for so far: first an exact release of `amount` from `who`'s budget, then, if that
    /// went through, a hold of `amount` under pending; after that, none.
    pub fn move_budget_to_pending_move(
        &self,
        who: AccountId,
        amount: Balance,
        verdicts: &Vec<Verdict>,
    ) -> (m: Option<BalanceMove>)
        ensures
            m == next_move(
                reserve_moves(self@.holds, who, amount, verdict_at(verdicts@, 0)),
                verdicts@.len() as int,
            ),
    {
        if verdicts.len() == 0 {
            Some(
                BalanceMove::Release {
                    reason: HoldReason::SponsorshipBudget,
                    who,
                    amount,
                    precision: Precision::Exact,
                },
            )
        } else if verdicts.len() == 1 && verdict_of(verdicts, 0).is_ok() && amount
            <= self.budget_on_hold(who) {
            Some(BalanceMove::Hold { reason: HoldReason::SponsorshipPending, who, amount })
        } else {
            None
        }
    }

    /// Moves `amount` of `who`'s available budget into their pending hold, reserving it for an
    /// in-flight sponsored transaction. `verdicts` are the balances pallet's verdicts on the
    /// moves `move_budget_to_pending_move` asked for, in order.
    pub fn move_budget_to_pending(&mut self, who: AccountId, amount: Balance, verdicts: &Vec<Verdict>) -> (r:
        Result<(), TransactionValidityError>)
        requires
            old(self)@.wf(),
        ensures
            final(self)@.wf(),
            final(self)@.sponsors == old(self)@.sponsors,
            final(self)@.max_allowed_callers == old(self)@.max_allowed_callers,
            (final(self)@.holds, r) == spec_move_budget_to_pending(
                old(self)@.holds,
                who,
                amount,
                verdict_at(verdicts@, 0),
                verdict_at(verdicts@, 1),
            ),
    {
        let release_verdict = verdict_of(verdicts, 0);
        let hold_verdict = verdict_of(verdicts, 1);
        if self.holds.release(
            HoldReason::SponsorshipBudget,
            who,
            amount,
            Precision::Exact,
            release_verdict,
        ).is_err() {
            return Err(TransactionValidityError::Invalid(InvalidTransaction::Payment));
        }
        proof {
            lemma_wf_local(old(self)@, self@, who);
        }
        let ghost released = self@;
        let r = if self.holds.hold(
            HoldReason::SponsorshipPending,
            who,
            amount,
            hold_verdict,
        ).is_err() {
            Err(TransactionValidityError::Invalid(InvalidTransaction::Payment))
        } else {
            proof {
                lemma_wf_local(released, self@, who);
            }
            Ok(())
        };
        r
    }

    /// The balance move `slash_pending` asks for, given the verdicts on the moves it asked for so
    /// far: a slash of up to `amount` from `who`'s pending hold; after that, none.
    pub fn slash_pending_move(&self, who: AccountId, amount: Balance, verdicts: &Vec<Verdict>) -> (m:
        Option<BalanceMove>)
        ensures
            m == next_move(
                seq![BalanceMove::Slash { reason: HoldReason::SponsorshipPending, who, amount }],
                verdicts@.len() as int,
            ),
    {
        if verdicts.len() == 0 {
            Some(BalanceMove::Slash { reason: HoldReason::SponsorshipPending, who, amount })
        } else {
            None
        }
    }

    /// Slashes up to `amount` from `who`'s pending hold, returning the amount taken and the
    /// shortfall. `verdicts` are the balances pallet's verdicts on the moves `slash_pending_move`
    /// asked for, in order.
    pub fn slash_pending(&mut self, who: AccountId, amount: Balance, verdicts: &Vec<Verdict>) -> (r: (
        Balance,
        Balance,
    ))
        requires
            old(self)@.wf(),
        ensures
            final(self)@.wf(),
            final(self)@.sponsors == old(self)@.sponsors,
            final(self)@.max_allowed_callers == old(self)@.max_allowed_callers,
            (final(self)@.holds, r) == old(self)@.holds.after_slash(
                HoldReason::SponsorshipPending,
                who,
                amount,
                verdict_at(verdicts@, 0),
            ),
    {
        let r = self.holds.slash(HoldReason::SponsorshipPending, who, amount, verdict_of(verdicts, 0));
        proof {
            lemma_wf_local(old(self)@, self@, who);
        }
        r
    }

    /// The balance move `restore_pending_to_budget` asks for, given the verdicts on the moves it
    /// asked for so far: nothing when nothing is pending; otherwise first a best-effort release
    /// of the whole pending amount, then, if that freed something, a hold under budget of the
    /// amount the balances pallet reports it freed; after that, none.
    pub fn restore_pending_to_budget_move(&self, who: AccountId, verdicts: &Vec<Verdict>) -> (m:
        Option<BalanceMove>)
        ensures
            m == next_move(
                restore_moves(self@.holds, who, verdict_at(verdicts@, 0)),
                verdicts@.len() as int,
            ),
    {
        let pending = self.pending_on_hold(who);
        if pending == 0 {
            None
        } else if verdicts.len() == 0 {
            Some(
                BalanceMove::Release {
                    reason: HoldReason::SponsorshipPending,
                    who,
                    amount: pending,
                    precision: Precision::BestEffort,
                },
            )
        } else if verdicts.len() == 1 {
            match verdict_of(verdicts, 0) {
                Ok(freed) => if freed != 0 {
                    Some(BalanceMove::Hold { reason: HoldReason::SponsorshipBudget, who, amount: freed })
                } else {
                    None
                },
                Err(_) => None,
            }
        } else {
            None
        }
    }

    /// Returns whatever is left of `who`'s pending hold to their available budget. `verdicts` are
    /// the balances pallet's verdicts on the moves `restore_pending_to_budget_move` asked for, in
    /// order.
    pub fn restore_pending_to_budget(&mut self, who: AccountId, verdicts: &Vec<Verdict>) -> (report:
        RestoreReport)
        requires
            old(self)@.wf(),
        ensures
            final(self)@.wf(),
            final(self)@.sponsors == old(self)@.sponsors,
            final(self)@.max_allowed_callers == old(self)@.max_allowed_callers,
            (final(self)@.holds, report) == spec_restore_pending_to_budget(
                old(self)@.holds,
                who,
                verdict_at(verdicts@, 0),
                verdict_at(verdicts@, 1),
            ),
    {
        self.restore_with(who, verdict_of(verdicts, 0), verdict_of(verdicts, 1))
    }

    /// Returns whatever is left of `who`'s pending hold to their available budget, with the
    /// balances pallet's verdicts on the release and on the hold.
    pub(crate) fn restore_with(
        &mut self,
        who: AccountId,
        release_verdict: Verdict,
        hold_verdict: Verdict,
    ) -> (report: RestoreReport)
        requires
            old(self)@.wf(),
        ensures
            final(self)@.wf(),
            final(self)@.sponsors == old(self)@.sponsors,
            final(self)@.max_allowed_callers == old(self)@.max_allowed_callers,
            (final(self)@.holds, report) == spec_restore_pending_to_budget(
                old(self)@.holds,
                who,
                release_verdict,
                hold_verdict,
            ),
    {
        let pending = self.pending_on_hold(who);
        if pending == 0 {
            return RestoreReport::NothingPending;
        }
        let released = match self.holds.release(
            HoldReason::SponsorshipPending,
            who,
            pending,
            Precision::BestEffort,
            release_verdict,
        ) {
            Ok(amount) => amount,
            Err(e) => return RestoreReport::ReleaseFailed(e),
        };
        proof {
            lemma_wf_local(old(self)@, self@, who);
        }
        if released == 0 {
            return RestoreReport::NothingReleased;
        }
        let ghost freed = self@;
        let report = match self.holds.hold(
            HoldReason::SponsorshipBudget,
            who,
            released,
            hold_verdict,
        ) {
            Ok(()) => RestoreReport::Restored(released),
            Err(e) => RestoreReport::RestoreHoldFailed { released, error: e },
        };
        proof {
            lemma_wf_local(freed, self@, who);
        }
        report
    }
}

} // verus!
