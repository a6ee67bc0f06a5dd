//! Properties of the sponsor lifecycle and of sponsored payment that span several calls.
use crate::extension::{
    spec_invalid, spec_post_dispatch, spec_prepare, spec_settle, spec_validate_sponsored,
    InvalidSponsoredTransaction, InvalidTransaction, PostDispatch, SponsoredChargeTransactionPayment,
    SponsoredPre, SponsoredVal, TransactionValidityError,
};
use crate::holds::{min_balance, BalanceMove, LedgerModel, Precision};
use crate::pallet::{
    decrease_moves, increase_moves, lemma_wf_local, policy_check, register_moves,
    spec_decrease_budget, spec_increase_budget, spec_register_sponsor, spec_set_active,
    spec_set_policy, spec_unregister, unregister_moves, PalletModel,
};
use crate::types::{
    AccountId, Balance, BalancesError, DispatchError, Error, Event, HoldReason, Origin,
    spec_ensure_signed, SponsorPolicy, SponsorState, Verdict,
};
use crate::weights::RuntimeDbWeight;
use vstd::prelude::*;

verus! {

/// Two ledgers in which every account holds the same amounts under both reasons.
pub open spec fn same_holdings(a: LedgerModel, b: LedgerModel) -> bool {
    forall|who: AccountId, reason: HoldReason| #[trigger] a.held(who, reason) == b.held(who, reason)
}

/// Two ledgers that agree on every account other than `who`.
pub open spec fn same_holdings_except(a: LedgerModel, b: LedgerModel, who: AccountId) -> bool {
    forall|other: AccountId, reason: HoldReason|
        other != who ==> #[trigger] a.held(other, reason) == b.held(other, reason)
}

/// A sponsored transaction is accepted exactly when it is signed, names a registered and active
/// sponsor whose allowlist holds the signer, and its fee with tip is within both the sponsor's
/// per-transaction cap and the sponsor's available budget.
pub proof fn law_validation_accepts_exactly(
    pallet: PalletModel,
    sponsor: AccountId,
    origin: Origin,
    fee_with_tip: Balance,
    tip: Balance,
)
    ensures
        spec_validate_sponsored(pallet, sponsor, origin, fee_with_tip, tip) is Ok <==> {
            &&& origin matches Origin::Signed(signer)
            &&& pallet.is_registered(sponsor)
            &&& pallet.sponsors[sponsor].active
            &&& pallet.sponsors[sponsor].policy.allowed_callers@.contains(signer)
            &&& fee_with_tip <= pallet.sponsors[sponsor].policy.max_fee_per_tx
            &&& fee_with_tip <= pallet.budget(sponsor)
        },
        spec_validate_sponsored(pallet, sponsor, origin, fee_with_tip, tip) matches Ok(val) ==> (
        val matches SponsoredVal::Sponsored { sponsor: s, signer, fee_with_tip: f, tip: t } && s
            == sponsor && origin == Origin::Signed(signer) && f == fee_with_tip && t == tip),
{
}

/// Pausing an active sponsor and then resuming it succeeds and returns the pallet to the state it
/// was in; pausing a paused sponsor fails with `AlreadyPaused` and changes nothing.
pub proof fn law_pause_then_resume_restores(pre: PalletModel, sponsor: AccountId)
    requires
        pre.is_registered(sponsor),
    ensures
        pre.sponsors[sponsor].active ==> {
            let (paused, paused_result) = spec_set_active(pre, Origin::Signed(sponsor), false);
            let (resumed, resumed_result) = spec_set_active(
                paused,
                Origin::Signed(sponsor),
                true,
            );
            &&& paused_result == Ok::<Event, DispatchError>(Event::SponsorPaused { sponsor })
            &&& !paused.sponsors[sponsor].active
            &&& resumed_result == Ok::<Event, DispatchError>(Event::SponsorResumed { sponsor })
            &&& resumed == pre
        },
        !pre.sponsors[sponsor].active ==> spec_set_active(pre, Origin::Signed(sponsor), false) == (
        pre,
        Err::<Event, DispatchError>(DispatchError::Module(Error::AlreadyPaused)),
        ),
{
    if pre.sponsors[sponsor].active {
        let (paused, _) = spec_set_active(pre, Origin::Signed(sponsor), false);
        let (resumed, _) = spec_set_active(paused, Origin::Signed(sponsor), true);
        assert(resumed.sponsors =~= pre.sponsors);
    }
}

/// Once a sponsor is paused, every sponsored transaction naming it from a signed origin is
/// refused as coming for an inactive sponsor, until it is resumed.
pub proof fn law_paused_sponsor_refuses(
    pre: PalletModel,
    sponsor: AccountId,
    signer: AccountId,
    fee_with_tip: Balance,
    tip: Balance,
)
    requires
        pre.is_registered(sponsor),
        pre.sponsors[sponsor].active,
    ensures
        ({
            let (paused, _) = spec_set_active(pre, Origin::Signed(sponsor), false);
            let (resumed, _) = spec_set_active(paused, Origin::Signed(sponsor), true);
            &&& spec_validate_sponsored(paused, sponsor, Origin::Signed(signer), fee_with_tip, tip)
                == Err::<SponsoredVal, _>(spec_invalid(InvalidSponsoredTransaction::InactiveSponsor))
            &&& spec_validate_sponsored(resumed, sponsor, Origin::Signed(signer), fee_with_tip, tip)
                == spec_validate_sponsored(pre, sponsor, Origin::Signed(signer), fee_with_tip, tip)
        }),
{
    law_pause_then_resume_restores(pre, sponsor);
}

/// Whenever a registered sponsor's budget increase succeeds, decreasing the budget again by the
/// same amount succeeds too when the balances pallet accepts the release, and leaves the registry
/// and every held amount as they were.
pub proof fn law_increase_then_decrease_restores(pre: PalletModel, sponsor: AccountId, amount: Balance)
    requires
        pre.is_registered(sponsor),
        amount > 0,
        spec_increase_budget(pre, Origin::Signed(sponsor), amount, Ok(amount)).1 is Ok,
    ensures
        ({
            let (increased, increased_result) = spec_increase_budget(
                pre,
                Origin::Signed(sponsor),
                amount,
                Ok(amount),
            );
            let (decreased, decreased_result) = spec_decrease_budget(
                increased,
                Origin::Signed(sponsor),
                amount,
                Ok(amount),
            );
            &&& increased_result == Ok::<Event, DispatchError>(
                Event::BudgetIncreased {
                    sponsor,
                    amount,
                    new_budget: (pre.budget(sponsor) + amount) as u128,
                },
            )
            &&& decreased_result == Ok::<Event, DispatchError>(
                Event::BudgetDecreased { sponsor, amount, new_budget: pre.budget(sponsor) },
            )
            &&& decreased.sponsors == pre.sponsors
            &&& same_holdings(decreased.holds, pre.holds)
        }),
{
    let (increased, _) = spec_increase_budget(pre, Origin::Signed(sponsor), amount, Ok(amount));
    let (decreased, _) = spec_decrease_budget(increased, Origin::Signed(sponsor), amount, Ok(amount));
    assert forall|who: AccountId, reason: HoldReason|
        #[trigger] decreased.holds.held(who, reason) == pre.holds.held(who, reason) by {}
}

/// Registering an account that is not a sponsor with a valid policy and a non-zero budget, and
/// then unregistering it, succeeds whenever the balances pallet accepts both moves, and returns
/// the pallet to the state it was in: the same registry and the same held amounts everywhere.
pub proof fn law_register_then_unregister(
    pre: PalletModel,
    sponsor: AccountId,
    initial_budget: Balance,
    policy: SponsorPolicy,
)
    requires
        pre.wf(),
        !pre.is_registered(sponsor),
        initial_budget > 0,
        policy_check(policy.allowed_callers@) is Ok,
    ensures
        ({
            let (registered, registered_result) = spec_register_sponsor(
                pre,
                Origin::Signed(sponsor),
                initial_budget,
                policy,
                Ok(initial_budget),
            );
            let (unregistered, unregistered_result) = spec_unregister(
                registered,
                Origin::Signed(sponsor),
                Ok(initial_budget),
            );
            &&& registered_result == Ok::<Event, DispatchError>(
                Event::SponsorRegistered { sponsor, initial_budget },
            )
            &&& registered.budget(sponsor) == initial_budget
            &&& registered.pending(sponsor) == 0
            &&& registered.sponsors[sponsor].active
            &&& unregistered_result == Ok::<Event, DispatchError>(
                Event::SponsorUnregistered { sponsor },
            )
            &&& unregistered.sponsors == pre.sponsors
            &&& same_holdings(unregistered.holds, pre.holds)
        }),
{
    assert(!pre.sponsors.contains_key(sponsor));
    assert(pre.budget(sponsor) == 0 && pre.pending(sponsor) == 0);
    let (registered, _) = spec_register_sponsor(
        pre,
        Origin::Signed(sponsor),
        initial_budget,
        policy,
        Ok(initial_budget),
    );
    let (unregistered, _) = spec_unregister(registered, Origin::Signed(sponsor), Ok(initial_budget));
    assert(unregistered.sponsors =~= pre.sponsors);
    assert forall|who: AccountId, reason: HoldReason|
        #[trigger] unregistered.holds.held(who, reason) == pre.holds.held(who, reason) by {}
}

/// A registered sponsor with funds pending cannot unregister: the call fails with
/// `PendingBudgetNotEmpty` and changes nothing, whatever the balances pallet would say.
pub proof fn law_unregister_blocked_while_pending(
    pre: PalletModel,
    sponsor: AccountId,
    release_outcome: Verdict,
)
    requires
        pre.is_registered(sponsor),
        pre.pending(sponsor) != 0,
    ensures
        spec_unregister(pre, Origin::Signed(sponsor), release_outcome) == (
            pre,
            Err::<Event, DispatchError>(DispatchError::Module(Error::PendingBudgetNotEmpty)),
        ),
{
}

/// A transaction that passed validation reserves exactly its worst-case fee when the balances
/// pallet accepts both moves: the sponsor's budget hold shrinks by the fee and the pending hold
/// grows by it, so the sponsor's total held amount is unchanged; nothing else changes.
pub proof fn law_prepare_reserves_validated_fee(
    pre: PalletModel,
    sponsor: AccountId,
    origin: Origin,
    fee_with_tip: Balance,
    tip: Balance,
)
    requires
        pre.wf(),
        spec_validate_sponsored(pre, sponsor, origin, fee_with_tip, tip) is Ok,
    ensures
        ({
            let val = spec_validate_sponsored(pre, sponsor, origin, fee_with_tip, tip)->Ok_0;
            let (post, prepared) = spec_prepare(pre, val, Ok(fee_with_tip), Ok(fee_with_tip));
            &&& prepared matches Ok(SponsoredPre::Sponsored { sponsor: s, estimated_fee_with_tip: e, tip: t, .. })
            &&& s == sponsor && e == fee_with_tip && t == tip
            &&& post.budget(sponsor) == pre.budget(sponsor) - fee_with_tip
            &&& post.pending(sponsor) == pre.pending(sponsor) + fee_with_tip
            &&& post.budget(sponsor) + post.pending(sponsor) == pre.budget(sponsor) + pre.pending(
                sponsor,
            )
            &&& post.sponsors == pre.sponsors
            &&& same_holdings_except(post.holds, pre.holds, sponsor)
        }),
{
    let val = spec_validate_sponsored(pre, sponsor, origin, fee_with_tip, tip)->Ok_0;
    let (post, _) = spec_prepare(pre, val, Ok(fee_with_tip), Ok(fee_with_tip));
    assert forall|other: AccountId, reason: HoldReason|
        other != sponsor implies #[trigger] post.holds.held(other, reason) == pre.holds.held(
            other,
            reason,
        ) by {}
    assert(pre.holds.held_total(sponsor) <= u128::MAX);
}

/// Settlement accounting, whatever the balances pallet says: the fee charged to the sponsor is at
/// most the actual fee and at most the reserved estimate, the tip recorded is the smaller of the
/// tip and the charged fee, and the fee and tip credits add up to the charged fee.
pub proof fn law_settlement_accounting(
    pre: PalletModel,
    sponsor: AccountId,
    signer: AccountId,
    estimate: Balance,
    tip: Balance,
    actual: Balance,
    db: RuntimeDbWeight,
    slash_outcome: Verdict,
    release_outcome: Verdict,
    hold_outcome: Verdict,
)
    ensures
        ({
            let (post, settlement) = spec_settle(
                pre,
                sponsor,
                signer,
                estimate,
                tip,
                actual,
                db,
                slash_outcome,
                release_outcome,
                hold_outcome,
            );
            &&& settlement.event matches Event::SponsoredTransactionFeePaid {
                sponsor: s,
                signer: g,
                actual_fee,
                tip: paid_tip,
            }
            &&& s == sponsor && g == signer
            &&& actual_fee <= estimate
            &&& actual_fee <= actual
            &&& paid_tip == min_balance(tip, actual_fee)
            &&& settlement.fee_credit + settlement.tip_credit == actual_fee
            &&& settlement.estimate_exceeded == (actual > estimate)
            &&& post.sponsors == pre.sponsors
            &&& same_holdings_except(post.holds, pre.holds, sponsor)
        }),
{
    let (post, _) = spec_settle(
        pre,
        sponsor,
        signer,
        estimate,
        tip,
        actual,
        db,
        slash_outcome,
        release_outcome,
        hold_outcome,
    );
    assert forall|other: AccountId, reason: HoldReason|
        other != sponsor implies #[trigger] post.holds.held(other, reason) == pre.holds.held(
            other,
            reason,
        ) by {}
}

/// When the balances pallet accepts every move in full (each release returns all it takes off
/// hold to the free balance), settlement leaves nothing pending for the
/// sponsor, returns the unused part of the reservation to the budget, and takes exactly the
/// charged fee from the sponsor's total held amount.
pub proof fn law_settlement_returns_leftover(
    pre: PalletModel,
    sponsor: AccountId,
    signer: AccountId,
    estimate: Balance,
    tip: Balance,
    actual: Balance,
    db: RuntimeDbWeight,
)
    requires
        pre.wf(),
    ensures
        ({
            let capped = min_balance(actual, estimate);
            let left = (pre.pending(sponsor) - min_balance(capped, pre.pending(sponsor))) as u128;
            let (post, settlement) = spec_settle(
                pre,
                sponsor,
                signer,
                estimate,
                tip,
                actual,
                db,
                Ok(capped),
                Ok(left),
                Ok(left),
            );
            let charged = settlement.event->SponsoredTransactionFeePaid_actual_fee;
            &&& post.pending(sponsor) == 0
            &&& post.budget(sponsor) + charged == pre.budget(sponsor) + pre.pending(sponsor)
            &&& charged == min_balance(min_balance(actual, estimate), pre.pending(sponsor))
        }),
{
    assert(pre.holds.held_total(sponsor) <= u128::MAX);
}

/// The whole sponsored payment of one transaction, when the sponsor has nothing else in flight
/// and the balances pallet accepts every move in full (each release returns all it takes off hold
/// to the free balance): validation passes, the fee charged is the actual
/// fee clamped to the validated estimate (so never above the sponsor's per-transaction cap), the
/// sponsor's budget ends lower by exactly that fee, nothing stays pending, the recorded tip is the
/// smaller of the tip and the fee, and the fee and tip credits add up to the fee.
pub proof fn law_sponsored_payment(
    pre: PalletModel,
    sponsor: AccountId,
    signer: AccountId,
    fee_with_tip: Balance,
    tip: Balance,
    actual: Balance,
    db: RuntimeDbWeight,
)
    requires
        pre.wf(),
        spec_validate_sponsored(pre, sponsor, Origin::Signed(signer), fee_with_tip, tip) is Ok,
        pre.pending(sponsor) == 0,
    ensures
        ({
            let val = spec_validate_sponsored(
                pre,
                sponsor,
                Origin::Signed(signer),
                fee_with_tip,
                tip,
            )->Ok_0;
            let (prepared_state, prepared) = spec_prepare(pre, val, Ok(fee_with_tip), Ok(fee_with_tip));
            let charged = min_balance(actual, fee_with_tip);
            let (post, outcome) = spec_post_dispatch(
                prepared_state,
                prepared->Ok_0,
                actual,
                db,
                Ok(charged),
                Ok((fee_with_tip - charged) as u128),
                Ok((fee_with_tip - charged) as u128),
            );
            &&& prepared is Ok
            &&& outcome matches PostDispatch::Sponsored(settlement)
            &&& settlement.event == Event::SponsoredTransactionFeePaid {
                sponsor,
                signer,
                actual_fee: charged,
                tip: min_balance(tip, charged),
            }
            &&& settlement.fee_credit + settlement.tip_credit == charged
            &&& charged <= pre.sponsors[sponsor].policy.max_fee_per_tx
            &&& post.budget(sponsor) == pre.budget(sponsor) - charged
            &&& post.pending(sponsor) == 0
            &&& post.sponsors == pre.sponsors
            &&& same_holdings_except(post.holds, pre.holds, sponsor)
        }),
{
    law_prepare_reserves_validated_fee(pre, sponsor, Origin::Signed(signer), fee_with_tip, tip);
    let val = spec_validate_sponsored(
        pre,
        sponsor,
        Origin::Signed(signer),
        fee_with_tip,
        tip,
    )->Ok_0;
    let (prepared_state, prepared) = spec_prepare(pre, val, Ok(fee_with_tip), Ok(fee_with_tip));
    let pre_sponsored = prepared->Ok_0;
    lemma_wf_local(pre, prepared_state, sponsor);
    let charged = min_balance(actual, fee_with_tip);
    law_settlement_returns_leftover(prepared_state, sponsor, signer, fee_with_tip, tip, actual, db);
    law_settlement_accounting(
        prepared_state,
        sponsor,
        signer,
        fee_with_tip,
        tip,
        actual,
        db,
        Ok(charged),
        Ok((fee_with_tip - charged) as u128),
        Ok((fee_with_tip - charged) as u128),
    );
    let (post, _) = spec_post_dispatch(
        prepared_state,
        pre_sponsored,
        actual,
        db,
        Ok(charged),
        Ok((fee_with_tip - charged) as u128),
        Ok((fee_with_tip - charged) as u128),
    );
    assert forall|other: AccountId, reason: HoldReason|
        other != sponsor implies #[trigger] post.holds.held(other, reason) == pre.holds.held(
            other,
            reason,
        ) by {
        assert(prepared_state.holds.held(other, reason) == pre.holds.held(other, reason));
    }
}

/// A sponsored transaction in a run: its fee with tip, its tip, and its actual fee with tip.
pub type Payment = (Balance, Balance, Balance);

/// The fee a sponsored transaction is charged when every move goes through: its actual fee,
/// clamped to its estimate.
pub open spec fn payment_charge(payment: Payment) -> Balance {
    min_balance(payment.2, payment.0)
}

/// The event recording a sponsored transaction's payment when every move goes through.
pub open spec fn payment_event(sponsor: AccountId, signer: AccountId, payment: Payment) -> Event {
    Event::SponsoredTransactionFeePaid {
        sponsor,
        signer,
        actual_fee: payment_charge(payment),
        tip: min_balance(payment.1, payment_charge(payment)),
    }
}

/// What all payments of a run charge together.
pub open spec fn total_charged(payments: Seq<Payment>) -> int
    decreases payments.len(),
{
    if payments.len() == 0 {
        0
    } else {
        payment_charge(payments[0]) + total_charged(payments.skip(1))
    }
}

/// Whether a sponsor with `budget` available and per-transaction cap `cap` can pay for every
/// payment of a run, one after another.
pub open spec fn affordable(budget: int, cap: Balance, payments: Seq<Payment>) -> bool
    decreases payments.len(),
{
    payments.len() > 0 ==> {
        &&& payments[0].0 <= cap
        &&& payments[0].0 <= budget
        &&& affordable(budget - payment_charge(payments[0]), cap, payments.skip(1))
    }
}

/// Running sponsored transactions one after another, each validated, prepared and settled with
/// every move going through in full; the run stops at the first transaction that is refused.
/// Returns the state after the run and the payment events recorded.
pub open spec fn run_payments(
    pre: PalletModel,
    sponsor: AccountId,
    signer: AccountId,
    payments: Seq<Payment>,
    db: RuntimeDbWeight,
) -> (PalletModel, Seq<Event>)
    decreases payments.len(),
{
    if payments.len() == 0 {
        (pre, Seq::empty())
    } else {
        let payment = payments[0];
        match spec_validate_sponsored(pre, sponsor, Origin::Signed(signer), payment.0, payment.1) {
            Err(_) => (pre, Seq::empty()),
            Ok(val) => {
                let (prepared_state, prepared) = spec_prepare(
                    pre,
                    val,
                    Ok(payment.0),
                    Ok(payment.0),
                );
                match prepared {
                    Err(_) => (prepared_state, Seq::empty()),
                    Ok(p) => {
                        let (post, outcome) = spec_post_dispatch(
                            prepared_state,
                            p,
                            payment.2,
                            db,
                            Ok(payment_charge(payment)),
                            Ok((payment.0 - payment_charge(payment)) as u128),
                            Ok((payment.0 - payment_charge(payment)) as u128),
                        );
                        match outcome {
                            PostDispatch::Unsponsored => (post, Seq::empty()),
                            PostDispatch::Sponsored(settlement) => {
                                let (last, events) = run_payments(
                                    post,
                                    sponsor,
                                    signer,
                                    payments.skip(1),
                                    db,
                                );
                                (last, seq![settlement.event] + events)
                            },
                        }
                    },
                }
            },
        }
    }
}

/// Sponsored transactions run one after another against an active sponsor that allowlists the
/// signer and has nothing else in flight: when each fits the sponsor's cap and what is left of
/// its budget, and the balances pallet accepts every move in full, every transaction is paid,
/// nothing stays pending, the budget ends lower by exactly the sum of the charged fees, and the i-th
/// event records the i-th charged fee; no other account's holds change.
pub proof fn law_sponsored_payments(
    pre: PalletModel,
    sponsor: AccountId,
    signer: AccountId,
    payments: Seq<Payment>,
    db: RuntimeDbWeight,
)
    requires
        pre.wf(),
        pre.is_registered(sponsor),
        pre.sponsors[sponsor].active,
        pre.sponsors[sponsor].policy.allowed_callers@.contains(signer),
        pre.pending(sponsor) == 0,
        affordable(pre.budget(sponsor) as int, pre.sponsors[sponsor].policy.max_fee_per_tx, payments),
    ensures
        ({
            let (post, events) = run_payments(pre, sponsor, signer, payments, db);
            &&& post.wf()
            &&& post.pending(sponsor) == 0
            &&& post.budget(sponsor) == pre.budget(sponsor) - total_charged(payments)
            &&& post.sponsors == pre.sponsors
            &&& same_holdings_except(post.holds, pre.holds, sponsor)
            &&& events.len() == payments.len()
            &&& forall|i: int|
                0 <= i < payments.len() ==> #[trigger] events[i] == payment_event(
                    sponsor,
                    signer,
                    payments[i],
                )
        }),
    decreases payments.len(),
{
    if payments.len() > 0 {
        let payment = payments[0];
        law_sponsored_payment(pre, sponsor, signer, payment.0, payment.1, payment.2, db);
        let val = spec_validate_sponsored(
            pre,
            sponsor,
            Origin::Signed(signer),
            payment.0,
            payment.1,
        )->Ok_0;
        let (prepared_state, prepared) = spec_prepare(pre, val, Ok(payment.0), Ok(payment.0));
        let (mid, outcome) = spec_post_dispatch(
            prepared_state,
            prepared->Ok_0,
            payment.2,
            db,
            Ok(payment_charge(payment)),
            Ok((payment.0 - payment_charge(payment)) as u128),
            Ok((payment.0 - payment_charge(payment)) as u128),
        );
        lemma_wf_local(pre, mid, sponsor);
        law_sponsored_payments(mid, sponsor, signer, payments.skip(1), db);
        let (post, events) = run_payments(mid, sponsor, signer, payments.skip(1), db);
        let settlement = outcome->Sponsored_0;
        let all = seq![settlement.event] + events;
        assert forall|other: AccountId, reason: HoldReason|
            other != sponsor implies #[trigger] post.holds.held(other, reason) == pre.holds.held(
                other,
                reason,
            ) by {
            assert(mid.holds.held(other, reason) == pre.holds.held(other, reason));
        }
        assert forall|i: int| 0 <= i < payments.len() implies #[trigger] all[i] == payment_event(
            sponsor,
            signer,
            payments[i],
        ) by {
            if i > 0 {
                assert(all[i] == events[i - 1]);
                assert(payments.skip(1)[i - 1] == payments[i]);
            }
        }
    }
}

/// One step of the pallet: a lifecycle call, or the preparation or settlement of a sponsored
/// transaction, together with the balances pallet's verdicts on the moves the step makes.
pub ghost enum Step {
    /// `register_sponsor`, with the verdict on the budget hold.
    Register { origin: Origin, initial_budget: Balance, policy: SponsorPolicy, verdict: Verdict },
    /// `increase_budget`, with the verdict on the hold.
    IncreaseBudget { origin: Origin, amount: Balance, verdict: Verdict },
    /// `decrease_budget`, with the verdict on the release.
    DecreaseBudget { origin: Origin, amount: Balance, verdict: Verdict },
    /// `set_policy`.
    SetPolicy { origin: Origin, policy: SponsorPolicy },
    /// `pause` (`active` false) or `resume` (`active` true).
    SetActive { origin: Origin, active: bool },
    /// `unregister`, with the verdict on the release of the budget.
    Unregister { origin: Origin, verdict: Verdict },
    /// The payment extension's `prepare`, with the verdicts on the release and the hold.
    Prepare { val: SponsoredVal, release_verdict: Verdict, hold_verdict: Verdict },
    /// Post-dispatch settlement, with the verdicts on the slash, the release and the hold.
    Settle {
        prepared: SponsoredPre,
        actual: Balance,
        db: RuntimeDbWeight,
        slash_verdict: Verdict,
        release_verdict: Verdict,
        hold_verdict: Verdict,
    },
}

/// Whether `step` can be taken in `pre`: a policy handed to a call fits the allowlist bound, as
/// the call's bounded argument guarantees.
pub open spec fn step_allowed(pre: PalletModel, step: Step) -> bool {
    match step {
        Step::Register { policy, .. } => pre.policy_fits(policy),
        Step::SetPolicy { policy, .. } => pre.policy_fits(policy),
        _ => true,
    }
}

/// The state after `step`.
pub open spec fn after_step(pre: PalletModel, step: Step) -> PalletModel {
    match step {
        Step::Register { origin, initial_budget, policy, verdict } => spec_register_sponsor(
            pre,
            origin,
            initial_budget,
            policy,
            verdict,
        ).0,
        Step::IncreaseBudget { origin, amount, verdict } => spec_increase_budget(
            pre,
            origin,
            amount,
            verdict,
        ).0,
        Step::DecreaseBudget { origin, amount, verdict } => spec_decrease_budget(
            pre,
            origin,
            amount,
            verdict,
        ).0,
        Step::SetPolicy { origin, policy } => spec_set_policy(pre, origin, policy).0,
        Step::SetActive { origin, active } => spec_set_active(pre, origin, active).0,
        Step::Unregister { origin, verdict } => spec_unregister(pre, origin, verdict).0,
        Step::Prepare { val, release_verdict, hold_verdict } => spec_prepare(
            pre,
            val,
            release_verdict,
            hold_verdict,
        ).0,
        Step::Settle { prepared, actual, db, slash_verdict, release_verdict, hold_verdict } =>
            spec_post_dispatch(
            pre,
            prepared,
            actual,
            db,
            slash_verdict,
            release_verdict,
            hold_verdict,
        ).0,
    }
}

/// The state after taking `steps` in order.
pub open spec fn after_steps(pre: PalletModel, steps: Seq<Step>) -> PalletModel
    decreases steps.len(),
{
    if steps.len() == 0 {
        pre
    } else {
        after_steps(after_step(pre, steps[0]), steps.skip(1))
    }
}

/// Whether each of `steps` can be taken in the state the steps before it reach.
pub open spec fn steps_allowed(pre: PalletModel, steps: Seq<Step>) -> bool
    decreases steps.len(),
{
    steps.len() > 0 ==> {
        &&& step_allowed(pre, steps[0])
        &&& steps_allowed(after_step(pre, steps[0]), steps.skip(1))
    }
}

/// The pallet at genesis: no sponsors and nothing on hold.
pub open spec fn genesis(max_allowed_callers: u32) -> PalletModel {
    PalletModel {
        sponsors: Map::empty(),
        holds: LedgerModel { budget: Map::empty(), pending: Map::empty() },
        max_allowed_callers,
    }
}

proof fn lemma_step_keeps_wf(pre: PalletModel, step: Step)
    requires
        pre.wf(),
        step_allowed(pre, step),
    ensures
        after_step(pre, step).wf(),
{
    let post = after_step(pre, step);
    match step {
        Step::Register { origin, initial_budget, policy, verdict } => {
            if let Ok(sponsor) = spec_ensure_signed(origin) {
                lemma_wf_local(pre, post, sponsor);
            }
        },
        Step::IncreaseBudget { origin, amount, verdict } => {
            if let Ok(sponsor) = spec_ensure_signed(origin) {
                lemma_wf_local(pre, post, sponsor);
            }
        },
        Step::DecreaseBudget { origin, amount, verdict } => {
            if let Ok(sponsor) = spec_ensure_signed(origin) {
                lemma_wf_local(pre, post, sponsor);
            }
        },
        Step::SetPolicy { origin, policy } => {
            if let Ok(sponsor) = spec_ensure_signed(origin) {
                lemma_wf_local(pre, post, sponsor);
            }
        },
        Step::SetActive { origin, active } => {
            if let Ok(sponsor) = spec_ensure_signed(origin) {
                lemma_wf_local(pre, post, sponsor);
            }
        },
        Step::Unregister { origin, verdict } => {
            if let Ok(sponsor) = spec_ensure_signed(origin) {
                lemma_wf_local(pre, post, sponsor);
            }
        },
        Step::Prepare { val, release_verdict, hold_verdict } => {
            if let SponsoredVal::Sponsored { sponsor, .. } = val {
                lemma_wf_local(pre, post, sponsor);
            }
        },
        Step::Settle { prepared, actual, db, slash_verdict, release_verdict, hold_verdict } => {
            if let SponsoredPre::Sponsored { sponsor, .. } = prepared {
                lemma_wf_local(pre, post, sponsor);
            }
        },
    }
}

proof fn lemma_steps_keep_wf(pre: PalletModel, steps: Seq<Step>)
    requires
        pre.wf(),
        steps_allowed(pre, steps),
    ensures
        after_steps(pre, steps).wf(),
    decreases steps.len(),
{
    if steps.len() > 0 {
        lemma_step_keeps_wf(pre, steps[0]);
        lemma_steps_keep_wf(after_step(pre, steps[0]), steps.skip(1));
    }
}

/// Every state the pallet reaches from genesis, through any sequence of lifecycle calls,
/// reservations and settlements and whatever the balances pallet answers to each move, keeps the
/// pallet's invariant; in particular no account outside the registry holds anything under either
/// of the pallet's hold reasons.
pub proof fn law_no_orphaned_holds(max_allowed_callers: u32, steps: Seq<Step>)
    requires
        steps_allowed(genesis(max_allowed_callers), steps),
    ensures
        after_steps(genesis(max_allowed_callers), steps).wf(),
        forall|who: AccountId|
            !#[trigger] after_steps(genesis(max_allowed_callers), steps).is_registered(who) ==> {
                &&& after_steps(genesis(max_allowed_callers), steps).budget(who) == 0
                &&& after_steps(genesis(max_allowed_callers), steps).pending(who) == 0
            },
{
    let start = genesis(max_allowed_callers);
    assert forall|who: AccountId| #[trigger] start.holds.held_total(who) <= u128::MAX by {}
    lemma_steps_keep_wf(start, steps);
}

/// Whether no account occurs in `callers` at two different positions.
pub open spec fn all_distinct(callers: Seq<AccountId>) -> bool {
    forall|i: int, j: int| 0 <= i < j < callers.len() ==> callers[i] != callers[j]
}

/// A transaction whose extension names a sponsor never takes the unsponsored path: validation
/// accepts it exactly when it is signed by a signer on the allowlist of that sponsor, the sponsor
/// is registered and active, and the fee with tip is within the sponsor's per-transaction cap and
/// its available budget; it then hands on that sponsor, that signer, the fee with tip and the
/// extension's tip. A signed transaction naming a registered, active sponsor whose allowlist does
/// not hold the signer is refused with code 3, whoever the signer is. An extension without a
/// sponsor always takes the unsponsored path.
pub proof fn law_validate_follows_the_named_sponsor(
    ext: SponsoredChargeTransactionPayment,
    pallet: PalletModel,
    origin: Origin,
    fee_with_tip: Balance,
)
    ensures
        ext.spec_sponsor() is None ==> ext.spec_validate(pallet, origin, fee_with_tip) == Ok::<
            SponsoredVal,
            TransactionValidityError,
        >(SponsoredVal::Unsponsored),
        ext.spec_sponsor() matches Some(sponsor) ==> {
            &&& ext.spec_validate(pallet, origin, fee_with_tip) is Ok <==> {
                &&& origin matches Origin::Signed(signer)
                &&& pallet.sponsors.contains_key(sponsor)
                &&& pallet.sponsors[sponsor].active
                &&& pallet.sponsors[sponsor].policy.allowed_callers@.contains(signer)
                &&& fee_with_tip <= pallet.sponsors[sponsor].policy.max_fee_per_tx
                &&& fee_with_tip <= pallet.holds.held(sponsor, HoldReason::SponsorshipBudget)
            }
            &&& ext.spec_validate(pallet, origin, fee_with_tip) matches Ok(val) ==> {
                &&& origin matches Origin::Signed(signer)
                &&& val == SponsoredVal::Sponsored {
                    sponsor,
                    signer,
                    fee_with_tip,
                    tip: ext.spec_tip(),
                }
            }
            &&& !(origin is Signed) ==> ext.spec_validate(pallet, origin, fee_with_tip)
                == refused(0)
            &&& (origin is Signed && !pallet.sponsors.contains_key(sponsor)) ==> ext.spec_validate(
                pallet,
                origin,
                fee_with_tip,
            ) == refused(1)
            &&& (origin is Signed && pallet.sponsors.contains_key(sponsor)
                && !pallet.sponsors[sponsor].active) ==> ext.spec_validate(
                pallet,
                origin,
                fee_with_tip,
            ) == refused(2)
            &&& ({
                &&& origin matches Origin::Signed(signer)
                &&& pallet.sponsors.contains_key(sponsor)
                &&& pallet.sponsors[sponsor].active
                &&& !pallet.sponsors[sponsor].policy.allowed_callers@.contains(signer)
            }) ==> ext.spec_validate(pallet, origin, fee_with_tip) == refused(3)
            &&& ({
                &&& origin matches Origin::Signed(signer)
                &&& pallet.sponsors.contains_key(sponsor)
                &&& pallet.sponsors[sponsor].active
                &&& pallet.sponsors[sponsor].policy.allowed_callers@.contains(signer)
                &&& fee_with_tip > pallet.sponsors[sponsor].policy.max_fee_per_tx
            }) ==> ext.spec_validate(pallet, origin, fee_with_tip) == refused(4)
            &&& ({
                &&& origin matches Origin::Signed(signer)
                &&& pallet.sponsors.contains_key(sponsor)
                &&& pallet.sponsors[sponsor].active
                &&& pallet.sponsors[sponsor].policy.allowed_callers@.contains(signer)
                &&& fee_with_tip <= pallet.sponsors[sponsor].policy.max_fee_per_tx
                &&& fee_with_tip > pallet.holds.held(sponsor, HoldReason::SponsorshipBudget)
            }) ==> ext.spec_validate(pallet, origin, fee_with_tip) == refused(5)
        },
{
}

/// A sponsored transaction refused with the given custom code.
pub open spec fn refused(code: u8) -> Result<SponsoredVal, TransactionValidityError> {
    Err(TransactionValidityError::Invalid(InvalidTransaction::Custom(code)))
}

/// Registering with an allowlist that is empty, or in which some account occurs twice, is refused
/// with `EmptyAllowlist` or `DuplicateAllowedCaller` and changes nothing, whenever the caller is
/// signed, not yet a sponsor and offers a non-zero budget; no move is asked for.
pub proof fn law_register_refuses_bad_allowlists(
    pre: PalletModel,
    sponsor: AccountId,
    initial_budget: Balance,
    policy: SponsorPolicy,
    verdict: Verdict,
)
    requires
        !pre.sponsors.contains_key(sponsor),
        initial_budget > 0,
        policy.allowed_callers@.len() == 0 || !all_distinct(policy.allowed_callers@),
    ensures
        ({
            let (post, r) = spec_register_sponsor(
                pre,
                Origin::Signed(sponsor),
                initial_budget,
                policy,
                verdict,
            );
            &&& post == pre
            &&& register_moves(pre, Origin::Signed(sponsor), initial_budget, policy).len() == 0
            &&& r == Err::<Event, DispatchError>(
                DispatchError::Module(
                    if policy.allowed_callers@.len() == 0 {
                        Error::EmptyAllowlist
                    } else {
                        Error::DuplicateAllowedCaller
                    },
                ),
            )
        }),
{
    law_policy_check_refuses_repeated_callers(policy.allowed_callers@);
}

/// Replacing a registered sponsor's policy with an allowlist that is empty, or in which some
/// account occurs twice, is refused with `EmptyAllowlist` or `DuplicateAllowedCaller` and changes
/// nothing.
pub proof fn law_set_policy_refuses_bad_allowlists(
    pre: PalletModel,
    sponsor: AccountId,
    policy: SponsorPolicy,
)
    requires
        policy.allowed_callers@.len() == 0 || !all_distinct(policy.allowed_callers@),
    ensures
        ({
            let (post, r) = spec_set_policy(pre, Origin::Signed(sponsor), policy);
            &&& post == pre
            &&& r == Err::<Event, DispatchError>(
                DispatchError::Module(
                    if policy.allowed_callers@.len() == 0 {
                        Error::EmptyAllowlist
                    } else {
                        Error::DuplicateAllowedCaller
                    },
                ),
            )
        }),
{
    law_policy_check_refuses_repeated_callers(policy.allowed_callers@);
}

/// An allowlist is accepted exactly when it is non-empty and no account occurs in it twice: an
/// empty one is refused with `EmptyAllowlist`, and one in which some account occurs at two
/// different positions, wherever they are, with `DuplicateAllowedCaller`.
pub proof fn law_policy_check_refuses_repeated_callers(callers: Seq<AccountId>)
    ensures
        callers.len() == 0 ==> policy_check(callers) == Err::<(), Error>(Error::EmptyAllowlist),
        (callers.len() > 0 && exists|i: int, j: int|
            0 <= i < j < callers.len() && callers[i] == callers[j]) ==> policy_check(callers)
            == Err::<(), Error>(Error::DuplicateAllowedCaller),
        (callers.len() > 0 && all_distinct(callers)) ==> policy_check(callers) == Ok::<(), Error>(()),
{
}

/// An account that is not a sponsor registers with any non-empty allowlist without repeated
/// callers and a non-zero budget that fits the balance type beside what it holds, whenever the
/// balances pallet accepts the hold: exactly one hold of the budget is asked for, the account
/// becomes an active sponsor with exactly that policy, its budget grows by the initial budget, and
/// nothing else changes.
pub proof fn law_register_sponsor_succeeds(
    pre: PalletModel,
    sponsor: AccountId,
    initial_budget: Balance,
    policy: SponsorPolicy,
    held: Balance,
)
    requires
        !pre.sponsors.contains_key(sponsor),
        initial_budget > 0,
        policy.allowed_callers@.len() > 0,
        all_distinct(policy.allowed_callers@),
        pre.holds.held(sponsor, HoldReason::SponsorshipBudget) + pre.holds.held(
            sponsor,
            HoldReason::SponsorshipPending,
        ) + initial_budget <= u128::MAX,
    ensures
        ({
            let (post, r) = spec_register_sponsor(
                pre,
                Origin::Signed(sponsor),
                initial_budget,
                policy,
                Ok(held),
            );
            &&& register_moves(pre, Origin::Signed(sponsor), initial_budget, policy) == seq![
                BalanceMove::Hold {
                    reason: HoldReason::SponsorshipBudget,
                    who: sponsor,
                    amount: initial_budget,
                },
            ]
            &&& r == Ok::<Event, DispatchError>(Event::SponsorRegistered { sponsor, initial_budget })
            &&& post.sponsors == pre.sponsors.insert(sponsor, SponsorState { active: true, policy })
            &&& post.holds.held(sponsor, HoldReason::SponsorshipBudget) == pre.holds.held(
                sponsor,
                HoldReason::SponsorshipBudget,
            ) + initial_budget
            &&& post.holds.held(sponsor, HoldReason::SponsorshipPending) == pre.holds.held(
                sponsor,
                HoldReason::SponsorshipPending,
            )
            &&& same_holdings_except(post.holds, pre.holds, sponsor)
        }),
{
    law_policy_check_refuses_repeated_callers(policy.allowed_callers@);
    let (post, _) = spec_register_sponsor(
        pre,
        Origin::Signed(sponsor),
        initial_budget,
        policy,
        Ok(held),
    );
    assert forall|other: AccountId, reason: HoldReason|
        other != sponsor implies #[trigger] post.holds.held(other, reason) == pre.holds.held(
            other,
            reason,
        ) by {}
}

/// A registered sponsor, active or paused, increases its budget by any non-zero amount that fits
/// the balance type beside what it holds, whenever the balances pallet accepts the hold: exactly
/// one hold of the amount is asked for, the budget grows by the amount, the event reports the new
/// budget, and nothing else changes.
pub proof fn law_increase_budget_adds(
    pre: PalletModel,
    sponsor: AccountId,
    amount: Balance,
    held: Balance,
)
    requires
        pre.sponsors.contains_key(sponsor),
        amount > 0,
        pre.holds.held(sponsor, HoldReason::SponsorshipBudget) + pre.holds.held(
            sponsor,
            HoldReason::SponsorshipPending,
        ) + amount <= u128::MAX,
    ensures
        ({
            let budget = pre.holds.held(sponsor, HoldReason::SponsorshipBudget);
            let (post, r) = spec_increase_budget(pre, Origin::Signed(sponsor), amount, Ok(held));
            &&& increase_moves(pre, Origin::Signed(sponsor), amount) == seq![
                BalanceMove::Hold { reason: HoldReason::SponsorshipBudget, who: sponsor, amount },
            ]
            &&& r == Ok::<Event, DispatchError>(
                Event::BudgetIncreased { sponsor, amount, new_budget: (budget + amount) as u128 },
            )
            &&& post.holds.held(sponsor, HoldReason::SponsorshipBudget) == budget + amount
            &&& post.holds.held(sponsor, HoldReason::SponsorshipPending) == pre.holds.held(
                sponsor,
                HoldReason::SponsorshipPending,
            )
            &&& post.sponsors == pre.sponsors
            &&& same_holdings_except(post.holds, pre.holds, sponsor)
        }),
{
    let (post, _) = spec_increase_budget(pre, Origin::Signed(sponsor), amount, Ok(held));
    assert forall|other: AccountId, reason: HoldReason|
        other != sponsor implies #[trigger] post.holds.held(other, reason) == pre.holds.held(
            other,
            reason,
        ) by {}
}

/// A registered sponsor, active or paused, decreases its budget by any non-zero amount up to the
/// budget, whenever the balances pallet accepts the release: exactly one exact release of the
/// amount is asked for, the budget shrinks by the amount, the event reports the new budget, and
/// nothing else changes.
pub proof fn law_decrease_budget_subtracts(
    pre: PalletModel,
    sponsor: AccountId,
    amount: Balance,
    freed: Balance,
)
    requires
        pre.sponsors.contains_key(sponsor),
        0 < amount <= pre.holds.held(sponsor, HoldReason::SponsorshipBudget),
    ensures
        ({
            let budget = pre.holds.held(sponsor, HoldReason::SponsorshipBudget);
            let (post, r) = spec_decrease_budget(pre, Origin::Signed(sponsor), amount, Ok(freed));
            &&& decrease_moves(pre, Origin::Signed(sponsor), amount) == seq![
                BalanceMove::Release {
                    reason: HoldReason::SponsorshipBudget,
                    who: sponsor,
                    amount,
                    precision: Precision::Exact,
                },
            ]
            &&& r == Ok::<Event, DispatchError>(
                Event::BudgetDecreased { sponsor, amount, new_budget: (budget - amount) as u128 },
            )
            &&& post.holds.held(sponsor, HoldReason::SponsorshipBudget) == budget - amount
            &&& post.holds.held(sponsor, HoldReason::SponsorshipPending) == pre.holds.held(
                sponsor,
                HoldReason::SponsorshipPending,
            )
            &&& post.sponsors == pre.sponsors
            &&& same_holdings_except(post.holds, pre.holds, sponsor)
        }),
{
    let (post, _) = spec_decrease_budget(pre, Origin::Signed(sponsor), amount, Ok(freed));
    assert forall|other: AccountId, reason: HoldReason|
        other != sponsor implies #[trigger] post.holds.held(other, reason) == pre.holds.held(
            other,
            reason,
        ) by {}
}

/// A registered sponsor with nothing pending can always leave, active or paused, whenever the
/// balances pallet accepts the release: exactly one exact release of the whole budget is asked
/// for (none when the budget is empty), the call succeeds, the sponsor and only the sponsor
/// leaves the registry, it holds nothing afterwards, and no other account's holds change.
pub proof fn law_unregister_releases_everything(
    pre: PalletModel,
    sponsor: AccountId,
    freed: Balance,
)
    requires
        pre.sponsors.contains_key(sponsor),
        pre.holds.held(sponsor, HoldReason::SponsorshipPending) == 0,
    ensures
        ({
            let budget = pre.holds.held(sponsor, HoldReason::SponsorshipBudget);
            let (post, r) = spec_unregister(pre, Origin::Signed(sponsor), Ok(freed));
            &&& unregister_moves(pre, Origin::Signed(sponsor)) == if budget == 0 {
                Seq::<BalanceMove>::empty()
            } else {
                seq![
                    BalanceMove::Release {
                        reason: HoldReason::SponsorshipBudget,
                        who: sponsor,
                        amount: budget,
                        precision: Precision::Exact,
                    },
                ]
            }
            &&& r == Ok::<Event, DispatchError>(Event::SponsorUnregistered { sponsor })
            &&& post.sponsors == pre.sponsors.remove(sponsor)
            &&& post.holds.held(sponsor, HoldReason::SponsorshipBudget) == 0
            &&& post.holds.held(sponsor, HoldReason::SponsorshipPending) == 0
            &&& same_holdings_except(post.holds, pre.holds, sponsor)
        }),
{
    let (post, _) = spec_unregister(pre, Origin::Signed(sponsor), Ok(freed));
    assert forall|other: AccountId, reason: HoldReason|
        other != sponsor implies #[trigger] post.holds.held(other, reason) == pre.holds.held(
            other,
            reason,
        ) by {}
}

/// Pausing a sponsor and then unregistering it, with nothing pending and the release accepted,
/// leaves the registry without the sponsor and the sponsor holding nothing, exactly as
/// unregistering an active sponsor does.
pub proof fn law_pause_then_unregister(pre: PalletModel, sponsor: AccountId, freed: Balance)
    requires
        pre.sponsors.contains_key(sponsor),
        pre.sponsors[sponsor].active,
        pre.holds.held(sponsor, HoldReason::SponsorshipPending) == 0,
    ensures
        ({
            let (paused, paused_result) = spec_set_active(pre, Origin::Signed(sponsor), false);
            let (post, r) = spec_unregister(paused, Origin::Signed(sponsor), Ok(freed));
            &&& paused_result == Ok::<Event, DispatchError>(Event::SponsorPaused { sponsor })
            &&& r == Ok::<Event, DispatchError>(Event::SponsorUnregistered { sponsor })
            &&& post.sponsors == pre.sponsors.remove(sponsor)
            &&& post.holds.held(sponsor, HoldReason::SponsorshipBudget) == 0
            &&& post.holds.held(sponsor, HoldReason::SponsorshipPending) == 0
            &&& same_holdings_except(post.holds, pre.holds, sponsor)
        }),
{
    let (paused, _) = spec_set_active(pre, Origin::Signed(sponsor), false);
    assert(paused.sponsors.contains_key(sponsor));
    assert(paused.holds == pre.holds);
    law_unregister_releases_everything(paused, sponsor, freed);
    assert(paused.sponsors.remove(sponsor) =~= pre.sponsors.remove(sponsor));
}

/// A registered sponsor replaces its policy with any non-empty allowlist without repeated
/// callers: the call succeeds, the sponsor keeps its active or paused state and now has exactly
/// the new policy, nothing else in the registry and no hold changes; so when the sponsor was
/// active, a signer on the new allowlist whose fee with tip is within the new cap and the budget
/// is accepted right after.
pub proof fn law_set_policy_keeps_the_active_flag(
    pre: PalletModel,
    sponsor: AccountId,
    policy: SponsorPolicy,
)
    requires
        pre.sponsors.contains_key(sponsor),
        policy.allowed_callers@.len() > 0,
        all_distinct(policy.allowed_callers@),
    ensures
        ({
            let (post, r) = spec_set_policy(pre, Origin::Signed(sponsor), policy);
            &&& r == Ok::<Event, DispatchError>(Event::SponsorPolicyUpdated { sponsor })
            &&& post.sponsors == pre.sponsors.insert(
                sponsor,
                SponsorState { active: pre.sponsors[sponsor].active, policy },
            )
            &&& post.holds == pre.holds
            &&& forall|signer: AccountId, fee_with_tip: Balance, tip: Balance|
                {
                    &&& pre.sponsors[sponsor].active
                    &&& #[trigger] policy.allowed_callers@.contains(signer)
                    &&& fee_with_tip <= policy.max_fee_per_tx
                    &&& fee_with_tip <= pre.holds.held(sponsor, HoldReason::SponsorshipBudget)
                } ==> #[trigger] spec_validate_sponsored(
                    post,
                    sponsor,
                    Origin::Signed(signer),
                    fee_with_tip,
                    tip,
                ) is Ok
        }),
{
    law_policy_check_refuses_repeated_callers(policy.allowed_callers@);
}

} // verus!
