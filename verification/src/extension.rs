//! The sponsored transaction payment rules.
//!
//! A transaction carries a `tip` and an optional `sponsor`. Without a sponsor the normal payment
//! path of the transaction-payment pallet applies unchanged, and these rules only say so. With a
//! sponsor, the transaction goes through three phases:
//!
//! 1. `validate` checks the origin, the sponsor's registration, state and policy, and the
//!    sponsor's available budget against the worst-case fee.
//! 2. `prepare` moves the worst-case fee from the sponsor's budget hold into the pending hold.
//! 3. `post_dispatch_details` slashes the actual fee from the pending hold, splits it into fee and
//!    tip, and returns whatever is left of the reservation to the budget hold.
//!
//! The fee figures come from the transaction-payment pallet's fee formula and are passed in.
use crate::holds::{min_balance, next_move, verdict_at, verdict_of, BalanceMove, Precision};
use crate::pallet::{
    reserve_moves, restore_moves, spec_move_budget_to_pending, spec_restore_pending_to_budget,
    Pallet, PalletModel, RestoreReport,
};
use crate::types::{same_account, AccountId, Balance, BalancesError, Event, HoldReason, Origin, Verdict};
use crate::weights::{RuntimeDbWeight, Weight};
use vstd::prelude::*;

verus! {

/// Why a sponsored transaction is refused.
#[derive(Clone, Copy, PartialEq, Eq, Structural, Debug)]
pub enum InvalidSponsoredTransaction {
    /// The origin is not a standard signed origin.
    UnsupportedOrigin,
    /// The named sponsor is not registered.
    UnknownSponsor,
    /// The named sponsor is paused.
    InactiveSponsor,
    /// The signer is not on the sponsor's allowlist.
    CallerNotAllowed,
    /// The fee with tip is above the sponsor's per-transaction cap.
    FeeCapExceeded,
    /// The sponsor's available budget is below the fee with tip.
    InsufficientBudget,
}

impl InvalidSponsoredTransaction {
    /// The custom validity code of each refusal.
    pub open spec fn spec_code(self) -> u8 {
        match self {
            InvalidSponsoredTransaction::UnsupportedOrigin => 0,
            InvalidSponsoredTransaction::UnknownSponsor => 1,
            InvalidSponsoredTransaction::InactiveSponsor => 2,
            InvalidSponsoredTransaction::CallerNotAllowed => 3,
            InvalidSponsoredTransaction::FeeCapExceeded => 4,
            InvalidSponsoredTransaction::InsufficientBudget => 5,
        }
    }

    /// The custom validity code of the refusal.
    pub fn code(self) -> (code: u8)
        ensures
            code == self.spec_code(),
    {
        match self {
            InvalidSponsoredTransaction::UnsupportedOrigin => 0,
            InvalidSponsoredTransaction::UnknownSponsor => 1,
            InvalidSponsoredTransaction::InactiveSponsor => 2,
            InvalidSponsoredTransaction::CallerNotAllowed => 3,
            InvalidSponsoredTransaction::FeeCapExceeded => 4,
            InvalidSponsoredTransaction::InsufficientBudget => 5,
        }
    }
}

/// Why a transaction is invalid.
#[derive(Clone, Copy, PartialEq, Eq, Structural, Debug)]
pub enum InvalidTransaction {
    /// The fee could not be paid.
    Payment,
    /// A custom refusal with its code.
    Custom(u8),
}

/// Why a transaction cannot be included.
#[derive(Clone, Copy, PartialEq, Eq, Structural, Debug)]
pub enum TransactionValidityError {
    /// The transaction is invalid.
    Invalid(InvalidTransaction),
}

/// The validity error of a sponsored-transaction refusal.
pub open spec fn spec_invalid(reason: InvalidSponsoredTransaction) -> TransactionValidityError {
    TransactionValidityError::Invalid(InvalidTransaction::Custom(reason.spec_code()))
}

/// The validity error of a sponsored-transaction refusal.
pub fn invalid(reason: InvalidSponsoredTransaction) -> (e: TransactionValidityError)
    ensures
        e == spec_invalid(reason),
{
    TransactionValidityError::Invalid(InvalidTransaction::Custom(reason.code()))
}

/// What validation hands on to `prepare`.
#[derive(Clone, Copy, PartialEq, Eq, Debug)]
pub enum SponsoredVal {
    /// The normal unsponsored payment path.
    Unsponsored,
    /// The sponsored path after validation has resolved the sponsor, signer and worst-case fee.
    Sponsored { sponsor: AccountId, signer: AccountId, fee_with_tip: Balance, tip: Balance },
}

/// What `prepare` hands on to post-dispatch settlement.
#[derive(Clone, Copy, PartialEq, Eq, Debug)]
pub enum SponsoredPre {
    /// The normal unsponsored payment path.
    Unsponsored,
    /// Sponsored payment data needed to settle fees after dispatch.
    Sponsored {
        sponsor: AccountId,
        signer: AccountId,
        estimated_fee_with_tip: Balance,
        tip: Balance,
    },
}

/// The outcome of settling a sponsored transaction after dispatch.
#[derive(Clone, Copy, PartialEq, Eq, Debug)]
pub struct Settlement {
    /// The weight of the settlement itself.
    pub weight: Weight,
    /// The actual fee was above the reserved estimate and was clamped to it.
    pub estimate_exceeded: bool,
    /// How much of the charged fee the pending hold could not cover.
    pub shortfall: Balance,
    /// The fee part of the slashed funds, for the fee destination.
    pub fee_credit: Balance,
    /// The tip part of the slashed funds, for the fee destination.
    pub tip_credit: Balance,
    /// What became of the leftover reservation.
    pub restore: RestoreReport,
    /// The event recording the payment.
    pub event: Event,
}

/// The outcome of post-dispatch handling.
#[derive(Clone, Copy, PartialEq, Eq, Debug)]
pub enum PostDispatch {
    /// The transaction took the normal payment path, which settles it.
    Unsponsored,
    /// The sponsored settlement.
    Sponsored(Settlement),
}

/// Reads of the sponsored `validate` and `prepare`: the sponsor record, the budget hold, and
/// the release and hold that reserve the fee.
pub const SPONSORED_VALIDATE_READS: u64 = 6;

/// Writes of the sponsored `validate` and `prepare`.
pub const SPONSORED_VALIDATE_WRITES: u64 = 4;

/// Reads of the sponsored settlement: slashing the pending hold, reading it, releasing it and
/// holding the remainder as budget.
pub const SPONSORED_POST_DISPATCH_READS: u64 = 7;

/// Writes of the sponsored settlement, including the event.
pub const SPONSORED_POST_DISPATCH_WRITES: u64 = 7;

/// The validation verdict on a transaction naming `sponsor`: the checks run in this order and the
/// first that fails decides.
pub open spec fn spec_validate_sponsored(
    pallet: PalletModel,
    sponsor: AccountId,
    origin: Origin,
    fee_with_tip: Balance,
    tip: Balance,
) -> Result<SponsoredVal, TransactionValidityError> {
    match origin {
        Origin::Signed(signer) => if !pallet.is_registered(sponsor) {
            Err(spec_invalid(InvalidSponsoredTransaction::UnknownSponsor))
        } else if !pallet.sponsors[sponsor].active {
            Err(spec_invalid(InvalidSponsoredTransaction::InactiveSponsor))
        } else if !pallet.sponsors[sponsor].policy.allowed_callers@.contains(signer) {
            Err(spec_invalid(InvalidSponsoredTransaction::CallerNotAllowed))
        } else if fee_with_tip > pallet.sponsors[sponsor].policy.max_fee_per_tx {
            Err(spec_invalid(InvalidSponsoredTransaction::FeeCapExceeded))
        } else if pallet.budget(sponsor) < fee_with_tip {
            Err(spec_invalid(InvalidSponsoredTransaction::InsufficientBudget))
        } else {
            Ok(SponsoredVal::Sponsored { sponsor, signer, fee_with_tip, tip })
        },
        _ => Err(spec_invalid(InvalidSponsoredTransaction::UnsupportedOrigin)),
    }
}

/// `prepare`: the sponsored path reserves the worst-case fee; the unsponsored path changes
/// nothing here.
pub open spec fn spec_prepare(
    pre: PalletModel,
    val: SponsoredVal,
    release_outcome: Verdict,
    hold_outcome: Verdict,
) -> (PalletModel, Result<SponsoredPre, TransactionValidityError>) {
    match val {
        SponsoredVal::Unsponsored => (pre, Ok(SponsoredPre::Unsponsored)),
        SponsoredVal::Sponsored { sponsor, signer, fee_with_tip, tip } => {
            let (holds, moved) = spec_move_budget_to_pending(
                pre.holds,
                sponsor,
                fee_with_tip,
                release_outcome,
                hold_outcome,
            );
            match moved {
                Err(e) => (pre.with_holds(holds), Err(e)),
                Ok(_) => (
                    pre.with_holds(holds),
                    Ok(
                        SponsoredPre::Sponsored {
                            sponsor,
                            signer,
                            estimated_fee_with_tip: fee_with_tip,
                            tip,
                        },
                    ),
                ),
            }
        },
    }
}

/// The moves `prepare` makes: on the sponsored path, those that reserve the worst-case fee.
pub open spec fn prepare_moves(pre: PalletModel, val: SponsoredVal, release_verdict: Verdict) -> Seq<
    BalanceMove,
> {
    match val {
        SponsoredVal::Unsponsored => Seq::empty(),
        SponsoredVal::Sponsored { sponsor, fee_with_tip, .. } => reserve_moves(
            pre.holds,
            sponsor,
            fee_with_tip,
            release_verdict,
        ),
    }
}

/// The moves of post-dispatch settlement: on the sponsored path, a slash of the clamped fee from
/// the pending hold, then the moves that return what is left of it to the budget.
pub open spec fn post_dispatch_moves(
    pre: PalletModel,
    prepared: SponsoredPre,
    actual: Balance,
    slash_verdict: Verdict,
    release_verdict: Verdict,
) -> Seq<BalanceMove> {
    match prepared {
        SponsoredPre::Unsponsored => Seq::empty(),
        SponsoredPre::Sponsored { sponsor, estimated_fee_with_tip, .. } => {
            let capped = min_balance(actual, estimated_fee_with_tip);
            let slashed = pre.holds.after_slash(
                HoldReason::SponsorshipPending,
                sponsor,
                capped,
                slash_verdict,
            ).0;
            seq![
                BalanceMove::Slash {
                    reason: HoldReason::SponsorshipPending,
                    who: sponsor,
                    amount: capped,
                },
            ] + restore_moves(slashed, sponsor, release_verdict)
        },
    }
}

/// The fee charged to the sponsor: the actual fee, clamped to the reserved estimate, less
/// whatever the pending hold could not cover.
pub open spec fn charged_fee(estimate: Balance, actual: Balance, shortfall: Balance) -> Balance {
    let capped = min_balance(actual, estimate);
    if shortfall <= capped {
        (capped - shortfall) as u128
    } else {
        0
    }
}

/// Sponsored settlement: slash the clamped actual fee from the pending hold, split the slashed
/// funds into tip (first) and fee, return the leftover reservation to the budget, and record the
/// payment.
pub open spec fn spec_settle(
    pre: PalletModel,
    sponsor: AccountId,
    signer: AccountId,
    estimate: Balance,
    tip: Balance,
    actual: Balance,
    db: RuntimeDbWeight,
    slash_outcome: Verdict,
    release_outcome: Verdict,
    hold_outcome: Verdict,
) -> (PalletModel, Settlement) {
    let capped = min_balance(actual, estimate);
    let (slashed, taken) = pre.holds.after_slash(
        HoldReason::SponsorshipPending,
        sponsor,
        capped,
        slash_outcome,
    );
    let credit = taken.0;
    let shortfall = taken.1;
    let charged = charged_fee(estimate, actual, shortfall);
    let actual_tip = min_balance(tip, charged);
    let tip_credit = min_balance(credit, actual_tip);
    let (restored, report) = spec_restore_pending_to_budget(
        slashed,
        sponsor,
        release_outcome,
        hold_outcome,
    );
    (
        pre.with_holds(restored),
        Settlement {
            weight: db.spec_reads_writes(
                SPONSORED_POST_DISPATCH_READS,
                SPONSORED_POST_DISPATCH_WRITES,
            ),
            estimate_exceeded: actual > estimate,
            shortfall,
            fee_credit: (credit - tip_credit) as u128,
            tip_credit,
            restore: report,
            event: Event::SponsoredTransactionFeePaid {
                sponsor,
                signer,
                actual_fee: charged,
                tip: actual_tip,
            },
        },
    )
}

/// Post-dispatch: the sponsored path settles; the unsponsored path changes nothing here.
pub open spec fn spec_post_dispatch(
    pre: PalletModel,
    prepared: SponsoredPre,
    actual_fee_with_tip: Balance,
    db: RuntimeDbWeight,
    slash_outcome: Verdict,
    release_outcome: Verdict,
    hold_outcome: Verdict,
) -> (PalletModel, PostDispatch) {
    match prepared {
        SponsoredPre::Unsponsored => (pre, PostDispatch::Unsponsored),
        SponsoredPre::Sponsored { sponsor, signer, estimated_fee_with_tip, tip } => {
            let (post, settlement) = spec_settle(
                pre,
                sponsor,
                signer,
                estimated_fee_with_tip,
                tip,
                actual_fee_with_tip,
                db,
                slash_outcome,
                release_outcome,
                hold_outcome,
            );
            (post, PostDispatch::Sponsored(settlement))
        },
    }
}

/// The fee a settlement slashes from the pending hold: the actual fee, clamped to the reserved
/// estimate.
pub fn clamp_to_estimate(estimate: Balance, actual: Balance) -> (fee: Balance)
    ensures
        fee == min_balance(actual, estimate),
{
    if actual > estimate {
        estimate
    } else {
        actual
    }
}

/// Whether `who` is in `callers`.
fn is_allowed(callers: &Vec<AccountId>, who: AccountId) -> (allowed: bool)
    ensures
        allowed == callers@.contains(who),
{
    let n = callers.len();
    let mut i: usize = 0;
    while i < n
        invariant
            n == callers@.len(),
            i <= n,
            forall|j: int| 0 <= j < i ==> callers@[j] != who,
        decreases n - i,
    {
        if same_account(callers[i], who) {
            assert(callers@[i as int] == who);
            return true;
        }
        i += 1;
    }
    false
}

/// Payment extension that optionally redirects transaction fees to an explicit sponsor.
#[derive(Clone, Copy, PartialEq, Eq, Debug)]
pub struct SponsoredChargeTransactionPayment {
    tip: Balance,
    sponsor: Option<AccountId>,
}

impl SponsoredChargeTransactionPayment {
    /// The tip carried by the extension.
    pub closed spec fn spec_tip(&self) -> Balance {
        self.tip
    }

    /// The sponsor named by the extension, if any.
    pub closed spec fn spec_sponsor(&self) -> Option<AccountId> {
        self.sponsor
    }

    /// What `validate` returns: the unsponsored marker when no sponsor is named, and the outcome
    /// of the sponsored checks otherwise.
    pub open spec fn spec_validate(
        &self,
        pallet: PalletModel,
        origin: Origin,
        fee_with_tip: Balance,
    ) -> Result<SponsoredVal, TransactionValidityError> {
        match self.spec_sponsor() {
            None => Ok(SponsoredVal::Unsponsored),
            Some(sponsor) => spec_validate_sponsored(
                pallet,
                sponsor,
                origin,
                fee_with_tip,
                self.spec_tip(),
            ),
        }
    }

    /// Creates a sponsored-payment extension with the given tip and optional sponsor.
    pub fn new(tip: Balance, sponsor: Option<AccountId>) -> (ext: Self)
        ensures
            ext.spec_tip() == tip,
            ext.spec_sponsor() == sponsor,
    {
        SponsoredChargeTransactionPayment { tip, sponsor }
    }

    /// The transaction tip.
    pub fn tip(&self) -> (tip: Balance)
        ensures
            tip == self.spec_tip(),
    {
        self.tip
    }

    /// The sponsor named for this transaction, if any.
    pub fn sponsor(&self) -> (sponsor: Option<AccountId>)
        ensures
            sponsor == self.spec_sponsor(),
    {
        self.sponsor
    }

    /// The weight of the sponsored `validate` and `prepare`, priced by `db`; `None` on the
    /// unsponsored path, whose weight is that of the normal payment extension.
    pub fn weight(&self, db: RuntimeDbWeight) -> (weight: Option<Weight>)
        ensures
            weight == match self.spec_sponsor() {
                Some(_) => Some(
                    db.spec_reads_writes(SPONSORED_VALIDATE_READS, SPONSORED_VALIDATE_WRITES),
                ),
                None => None::<Weight>,
            },
    {
        match self.sponsor {
            Some(_) => Some(db.reads_writes(SPONSORED_VALIDATE_READS, SPONSORED_VALIDATE_WRITES)),
            None => None,
        }
    }

    /// Validates a transaction submitted with `origin`. `fee_with_tip` is the transaction-payment
    /// pallet's fee for this transaction with this extension's tip.
    pub fn validate(&self, pallet: &Pallet, origin: Origin, fee_with_tip: Balance) -> (r: Result<
        SponsoredVal,
        TransactionValidityError,
    >)
        ensures
            r == self.spec_validate(pallet@, origin, fee_with_tip),
    {
        let sponsor = match self.sponsor {
            None => return Ok(SponsoredVal::Unsponsored),
            Some(sponsor) => sponsor,
        };
        let signer = match origin {
            Origin::Signed(signer) => signer,
            _ => return Err(invalid(InvalidSponsoredTransaction::UnsupportedOrigin)),
        };
        let state = match pallet.sponsor_state(sponsor) {
            None => return Err(invalid(InvalidSponsoredTransaction::UnknownSponsor)),
            Some(state) => state,
        };
        if !state.active {
            return Err(invalid(InvalidSponsoredTransaction::InactiveSponsor));
        }
        if !is_allowed(&state.policy.allowed_callers, signer) {
            return Err(invalid(InvalidSponsoredTransaction::CallerNotAllowed));
        }
        if fee_with_tip > state.policy.max_fee_per_tx {
            return Err(invalid(InvalidSponsoredTransaction::FeeCapExceeded));
        }
        if pallet.budget_on_hold(sponsor) < fee_with_tip {
            return Err(invalid(InvalidSponsoredTransaction::InsufficientBudget));
        }
        Ok(SponsoredVal::Sponsored { sponsor, signer, fee_with_tip, tip: self.tip })
    }

    /// The balance move `prepare` asks for, given the verdicts on the moves it asked for so far:
    /// none on the unsponsored path; on the sponsored path, those that reserve the worst-case fee.
    pub fn prepare_move(&self, pallet: &Pallet, val: SponsoredVal, verdicts: &Vec<Verdict>) -> (m:
        Option<BalanceMove>)
        ensures
            m == next_move(
                prepare_moves(pallet@, val, verdict_at(verdicts@, 0)),
                verdicts@.len() as int,
            ),
    {
        match val {
            SponsoredVal::Unsponsored => None,
            SponsoredVal::Sponsored { sponsor, fee_with_tip, .. } => {
                pallet.move_budget_to_pending_move(sponsor, fee_with_tip, verdicts)
            },
        }
    }

    /// Prepares a validated transaction for dispatch: on the sponsored path the worst-case fee is
    /// moved from the sponsor's budget hold to the pending hold. `verdicts` are the balances
    /// pallet's verdicts on the moves `prepare_move` asked for, in order.
    pub fn prepare(self, pallet: &mut Pallet, val: SponsoredVal, verdicts: &Vec<Verdict>) -> (r:
        Result<SponsoredPre, TransactionValidityError>)
        requires
            old(pallet)@.wf(),
        ensures
            final(pallet)@.wf(),
            (final(pallet)@, r) == spec_prepare(
                old(pallet)@,
                val,
                verdict_at(verdicts@, 0),
                verdict_at(verdicts@, 1),
            ),
    {
        match val {
            SponsoredVal::Unsponsored => Ok(SponsoredPre::Unsponsored),
            SponsoredVal::Sponsored { sponsor, signer, fee_with_tip, tip } => {
                let moved = pallet.move_budget_to_pending(sponsor, fee_with_tip, verdicts);
                assert(pallet@ == old(pallet)@.with_holds(pallet@.holds));
                match moved {
                    Err(e) => Err(e),
                    Ok(()) => Ok(
                        SponsoredPre::Sponsored {
                            sponsor,
                            signer,
                            estimated_fee_with_tip: fee_with_tip,
                            tip,
                        },
                    ),
                }
            },
        }
    }

    /// The balance move post-dispatch settlement asks for, given the verdicts on the moves it
    /// asked for so far: none on the unsponsored path; on the sponsored path, first a slash of
    /// the clamped fee from the pending hold, then the moves that return what is left of the
    /// pending hold to the budget.
    pub fn post_dispatch_move(
        pallet: &Pallet,
        prepared: SponsoredPre,
        actual_fee_with_tip: Balance,
        verdicts: &Vec<Verdict>,
    ) -> (m: Option<BalanceMove>)
        ensures
            m == next_move(
                post_dispatch_moves(
                    pallet@,
                    prepared,
                    actual_fee_with_tip,
                    verdict_at(verdicts@, 0),
                    verdict_at(verdicts@, 1),
                ),
                verdicts@.len() as int,
            ),
    {
        match prepared {
            SponsoredPre::Unsponsored => None,
            SponsoredPre::Sponsored { sponsor, estimated_fee_with_tip, .. } => {
                let capped = clamp_to_estimate(estimated_fee_with_tip, actual_fee_with_tip);
                let slash = BalanceMove::Slash {
                    reason: HoldReason::SponsorshipPending,
                    who: sponsor,
                    amount: capped,
                };
                let ghost slashed = pallet@.holds.after_slash(
                    HoldReason::SponsorshipPending,
                    sponsor,
                    capped,
                    verdict_at(verdicts@, 0),
                ).0;
                let ghost restored = restore_moves(slashed, sponsor, verdict_at(verdicts@, 1));
                let ghost moves = post_dispatch_moves(
                    pallet@,
                    prepared,
                    actual_fee_with_tip,
                    verdict_at(verdicts@, 0),
                    verdict_at(verdicts@, 1),
                );
                assert(moves == seq![slash] + restored);
                if verdicts.len() == 0 {
                    return Some(slash);
                }
                let held = pallet.pending_on_hold(sponsor);
                let left = if verdict_of(verdicts, 0).is_ok() {
                    if capped <= held {
                        held - capped
                    } else {
                        0
                    }
                } else {
                    held
                };
                assert(left == slashed.held(sponsor, HoldReason::SponsorshipPending));
                let m = if left == 0 {
                    None
                } else if verdicts.len() == 1 {
                    Some(
                        BalanceMove::Release {
                            reason: HoldReason::SponsorshipPending,
                            who: sponsor,
                            amount: left,
                            precision: Precision::BestEffort,
                        },
                    )
                } else if verdicts.len() == 2 {
                    match verdict_of(verdicts, 1) {
                        Ok(freed) => if freed != 0 {
                            Some(
                                BalanceMove::Hold {
                                    reason: HoldReason::SponsorshipBudget,
                                    who: sponsor,
                                    amount: freed,
                                },
                            )
                        } else {
                            None
                        },
                        Err(_) => None,
                    }
                } else {
                    None
                };
                proof {
                    if verdicts@.len() < moves.len() {
                        assert(moves[verdicts@.len() as int] == restored[verdicts@.len() - 1]);
                    }
                }
                m
            },
        }
    }

    /// Settles a dispatched transaction. On the sponsored path `actual_fee_with_tip` is the
    /// transaction-payment pallet's actual fee with the tip and `db` prices the settlement; the
    /// clamped fee is slashed from the pending hold and the remainder restored to the budget.
    /// `verdicts` are the balances pallet's verdicts on the moves `post_dispatch_move` asked for,
    /// in order.
    pub fn post_dispatch_details(
        pallet: &mut Pallet,
        prepared: SponsoredPre,
        actual_fee_with_tip: Balance,
        db: RuntimeDbWeight,
        verdicts: &Vec<Verdict>,
    ) -> (r: PostDispatch)
        requires
            old(pallet)@.wf(),
        ensures
            final(pallet)@.wf(),
            (final(pallet)@, r) == spec_post_dispatch(
                old(pallet)@,
                prepared,
                actual_fee_with_tip,
                db,
                verdict_at(verdicts@, 0),
                verdict_at(verdicts@, 1),
                verdict_at(verdicts@, 2),
            ),
    {
        match prepared {
            SponsoredPre::Unsponsored => PostDispatch::Unsponsored,
            SponsoredPre::Sponsored { sponsor, signer, estimated_fee_with_tip, tip } => {
                let weight = db.reads_writes(
                    SPONSORED_POST_DISPATCH_READS,
                    SPONSORED_POST_DISPATCH_WRITES,
                );
                let estimate_exceeded = actual_fee_with_tip > estimated_fee_with_tip;
                let mut charged_fee_with_tip = clamp_to_estimate(
                    estimated_fee_with_tip,
                    actual_fee_with_tip,
                );
                let (credit, missing) = pallet.slash_pending(sponsor, charged_fee_with_tip, verdicts);
                if missing != 0 {
                    charged_fee_with_tip = charged_fee_with_tip.saturating_sub(missing);
                }
                let actual_tip = if tip <= charged_fee_with_tip {
                    tip
                } else {
                    charged_fee_with_tip
                };
                let tip_credit = if credit <= actual_tip {
                    credit
                } else {
                    actual_tip
                };
                let fee_credit = credit - tip_credit;
                let restore = pallet.restore_with(
                    sponsor,
                    verdict_of(verdicts, 1),
                    verdict_of(verdicts, 2),
                );
                assert(pallet@ == old(pallet)@.with_holds(pallet@.holds));
                PostDispatch::Sponsored(
                    Settlement {
                        weight,
                        estimate_exceeded,
                        shortfall: missing,
                        fee_credit,
                        tip_credit,
                        restore,
                        event: Event::SponsoredTransactionFeePaid {
                            sponsor,
                            signer,
                            actual_fee: charged_fee_with_tip,
                            tip: actual_tip,
                        },
                    },
                )
            },
        }
    }
}

} // verus!
