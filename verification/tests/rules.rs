use pallet_sponsored_tx::benchmarking::{
    default_budget_delta, default_initial_budget, minimum_balance, setup_balance,
};
use pallet_sponsored_tx::extension::{
    clamp_to_estimate, invalid, InvalidSponsoredTransaction, InvalidTransaction, PostDispatch,
    Settlement, SponsoredChargeTransactionPayment, SponsoredPre, SponsoredVal,
    TransactionValidityError,
};
use pallet_sponsored_tx::holds::{BalanceMove, HoldLedger, Precision};
use pallet_sponsored_tx::pallet::{Pallet, RestoreReport};
use pallet_sponsored_tx::types::{
    ensure_signed, same_account, AccountId, Balance, BalancesError, DispatchError, Error, Event,
    HoldReason, Origin, SponsorPolicy, SponsorState, Verdict,
};
use pallet_sponsored_tx::weights::{
    rocks_db_weight, RuntimeDbWeight, SubstrateWeight, Weight, WeightInfo,
};
use std::cell::RefCell;

const BUDGET: HoldReason = HoldReason::SponsorshipBudget;
const PENDING: HoldReason = HoldReason::SponsorshipPending;

/// The account with the given index in its first word.
fn acct(index: u64) -> AccountId {
    (index, 0, 0, 0)
}

fn signed(index: u64) -> Origin {
    Origin::Signed(acct(index))
}

/// The balances pallet accepting every move in full.
fn accept(m: BalanceMove) -> Verdict {
    Ok(m.amount())
}

/// The balances pallet refusing or accepting in full each kind of move.
fn answering(
    hold: Result<(), BalancesError>,
    release: Result<(), BalancesError>,
    slash: Result<(), BalancesError>,
) -> impl Fn(BalanceMove) -> Verdict {
    move |m: BalanceMove| {
        let answer = match m {
            BalanceMove::Hold { .. } => hold,
            BalanceMove::Release { .. } => release,
            BalanceMove::Slash { .. } => slash,
        };
        answer.map(|_| m.amount())
    }
}

fn policy(callers: Vec<u64>, max_fee_per_tx: Balance) -> SponsorPolicy {
    SponsorPolicy { allowed_callers: callers.into_iter().map(acct).collect(), max_fee_per_tx }
}

fn registered(budget: Balance, callers: Vec<u64>, cap: Balance) -> Pallet {
    let mut pallet = Pallet::new(8);
    register(&mut pallet, signed(1), budget, policy(callers, cap), &accept).unwrap();
    pallet
}

fn unit_db() -> RuntimeDbWeight {
    RuntimeDbWeight { read: 10, write: 100 }
}

fn module(error: Error) -> Result<Event, DispatchError> {
    Err(DispatchError::Module(error))
}

fn settle<F: Fn(BalanceMove) -> Verdict>(
    pallet: &mut Pallet,
    estimate: Balance,
    tip: Balance,
    actual: Balance,
    perform: &F,
) -> Settlement {
    let pre = SponsoredPre::Sponsored {
        sponsor: acct(1),
        signer: acct(2),
        estimated_fee_with_tip: estimate,
        tip,
    };
    match post_dispatch(
        pallet,
        pre,
        actual,
        unit_db(),
        perform,
    ) {
        PostDispatch::Sponsored(settlement) => settlement,
        PostDispatch::Unsponsored => panic!("the sponsored path must settle"),
    }
}

/// Has the balances pallet, as `answer` stands for it, perform each move a call asks for, one
/// after another until the call asks for none, and returns its verdicts in order.
fn answer_moves<N: Fn(&Vec<Verdict>) -> Option<BalanceMove>, F: Fn(BalanceMove) -> Verdict>(
    next: N,
    answer: &F,
) -> Vec<Verdict> {
    let mut verdicts = Vec::new();
    while let Some(m) = next(&verdicts) {
        verdicts.push(answer(m));
    }
    verdicts
}

fn register<F: Fn(BalanceMove) -> Verdict>(
    pallet: &mut Pallet,
    origin: Origin,
    initial_budget: Balance,
    policy: SponsorPolicy,
    answer: &F,
) -> Result<Event, DispatchError> {
    let verdicts = answer_moves(
        |v: &Vec<Verdict>| pallet.register_sponsor_move(origin, initial_budget, &policy, v),
        answer,
    );
    pallet.register_sponsor(origin, initial_budget, policy, &verdicts)
}

fn increase<F: Fn(BalanceMove) -> Verdict>(
    pallet: &mut Pallet,
    origin: Origin,
    amount: Balance,
    answer: &F,
) -> Result<Event, DispatchError> {
    let verdicts =
        answer_moves(|v: &Vec<Verdict>| pallet.increase_budget_move(origin, amount, v), answer);
    pallet.increase_budget(origin, amount, &verdicts)
}

fn decrease<F: Fn(BalanceMove) -> Verdict>(
    pallet: &mut Pallet,
    origin: Origin,
    amount: Balance,
    answer: &F,
) -> Result<Event, DispatchError> {
    let verdicts =
        answer_moves(|v: &Vec<Verdict>| pallet.decrease_budget_move(origin, amount, v), answer);
    pallet.decrease_budget(origin, amount, &verdicts)
}

fn unregister<F: Fn(BalanceMove) -> Verdict>(
    pallet: &mut Pallet,
    origin: Origin,
    answer: &F,
) -> Result<Event, DispatchError> {
    let verdicts = answer_moves(|v: &Vec<Verdict>| pallet.unregister_move(origin, v), answer);
    pallet.unregister(origin, &verdicts)
}

fn prepare<F: Fn(BalanceMove) -> Verdict>(
    ext: SponsoredChargeTransactionPayment,
    pallet: &mut Pallet,
    val: SponsoredVal,
    answer: &F,
) -> Result<SponsoredPre, TransactionValidityError> {
    let verdicts = answer_moves(|v: &Vec<Verdict>| ext.prepare_move(pallet, val, v), answer);
    ext.prepare(pallet, val, &verdicts)
}

fn post_dispatch<F: Fn(BalanceMove) -> Verdict>(
    pallet: &mut Pallet,
    pre: SponsoredPre,
    actual_fee_with_tip: Balance,
    db: RuntimeDbWeight,
    answer: &F,
) -> PostDispatch {
    let verdicts = answer_moves(
        |v: &Vec<Verdict>| {
            SponsoredChargeTransactionPayment::post_dispatch_move(pallet, pre, actual_fee_with_tip, v)
        },
        answer,
    );
    SponsoredChargeTransactionPayment::post_dispatch_details(pallet, pre, actual_fee_with_tip, db, &verdicts)
}

fn reserve<F: Fn(BalanceMove) -> Verdict>(
    pallet: &mut Pallet,
    who: AccountId,
    amount: Balance,
    answer: &F,
) -> Result<(), TransactionValidityError> {
    let verdicts =
        answer_moves(|v: &Vec<Verdict>| pallet.move_budget_to_pending_move(who, amount, v), answer);
    pallet.move_budget_to_pending(who, amount, &verdicts)
}

fn slash<F: Fn(BalanceMove) -> Verdict>(
    pallet: &mut Pallet,
    who: AccountId,
    amount: Balance,
    answer: &F,
) -> (Balance, Balance) {
    let verdicts = answer_moves(|v: &Vec<Verdict>| pallet.slash_pending_move(who, amount, v), answer);
    pallet.slash_pending(who, amount, &verdicts)
}

fn restore<F: Fn(BalanceMove) -> Verdict>(
    pallet: &mut Pallet,
    who: AccountId,
    answer: &F,
) -> RestoreReport {
    let verdicts =
        answer_moves(|v: &Vec<Verdict>| pallet.restore_pending_to_budget_move(who, v), answer);
    pallet.restore_pending_to_budget(who, &verdicts)
}

#[test]
fn accounts_compare_by_all_four_words() {
    assert!(same_account((1, 2, 3, 4), (1, 2, 3, 4)));
    assert!(!same_account((1, 2, 3, 4), (1, 2, 3, 5)));
    assert!(!same_account((0, 2, 3, 4), (1, 2, 3, 4)));
    let mut pallet = Pallet::new(8);
    let long_sponsor: AccountId = (u64::MAX, 7, 0, 1);
    let long_signer: AccountId = (u64::MAX, 7, 0, 2);
    let state_policy = SponsorPolicy { allowed_callers: vec![long_signer], max_fee_per_tx: 9 };
    register(&mut pallet, Origin::Signed(long_sponsor), 40, state_policy, &accept).unwrap();
    assert_eq!(pallet.budget_on_hold(long_sponsor), 40);
    assert_eq!(pallet.budget_on_hold((u64::MAX, 7, 0, 2)), 0);
    let ext = SponsoredChargeTransactionPayment::new(0, Some(long_sponsor));
    assert!(ext.validate(&pallet, Origin::Signed(long_signer), 5).is_ok());
    assert_eq!(
        ext.validate(&pallet, Origin::Signed((u64::MAX, 7, 0, 3)), 5),
        Err(invalid(InvalidSponsoredTransaction::CallerNotAllowed))
    );
}

#[test]
fn ensure_signed_accepts_only_signed_origins() {
    assert_eq!(ensure_signed(signed(7)), Ok(acct(7)));
    assert_eq!(ensure_signed(Origin::Root), Err(DispatchError::BadOrigin));
    assert_eq!(ensure_signed(Origin::Unsigned), Err(DispatchError::BadOrigin));
}

#[test]
fn ensure_valid_policy_checks_emptiness_then_duplicates() {
    assert_eq!(Pallet::ensure_valid_policy(&policy(vec![], 1)), Err(Error::EmptyAllowlist));
    assert_eq!(
        Pallet::ensure_valid_policy(&policy(vec![4, 5, 6, 5], 1)),
        Err(Error::DuplicateAllowedCaller)
    );
    assert_eq!(Pallet::ensure_valid_policy(&policy(vec![4, 5, 6], 1)), Ok(()));
}

#[test]
fn register_rejects_bad_origin_zero_budget_and_duplicates() {
    let mut pallet = Pallet::new(8);
    assert_eq!(
        register(&mut pallet, Origin::Root, 10, policy(vec![2], 5), &accept),
        Err(DispatchError::BadOrigin)
    );
    assert_eq!(
        register(&mut pallet, signed(1), 0, policy(vec![2], 5), &accept),
        module(Error::ZeroBudget)
    );
    assert_eq!(
        register(&mut pallet, signed(1), 10, policy(vec![2], 5), &accept),
        Ok(Event::SponsorRegistered { sponsor: acct(1), initial_budget: 10 })
    );
    assert_eq!(
        register(&mut pallet, signed(1), 10, policy(vec![2], 5), &accept),
        module(Error::AlreadyRegistered)
    );
    assert_eq!(pallet.budget_on_hold(acct(1)), 10);
    let state = pallet.sponsor_state(acct(1)).unwrap();
    assert!(state.active);
    assert_eq!(state.policy.allowed_callers, vec![acct(2)]);
    assert_eq!(state.policy.max_fee_per_tx, 5);
}

#[test]
fn register_fails_when_the_hold_is_refused() {
    let mut pallet = Pallet::new(8);
    let refuse = answering(Err(BalancesError::FundsUnavailable), Ok(()), Ok(()));
    assert_eq!(
        register(&mut pallet, signed(1), 10, policy(vec![2], 5), &refuse),
        Err(DispatchError::Balances(BalancesError::FundsUnavailable))
    );
    assert!(pallet.sponsor_state(acct(1)).is_none());
    assert_eq!(pallet.budget_on_hold(acct(1)), 0);
}

#[test]
fn lifecycle_calls_ask_for_exactly_their_moves() {
    let log: RefCell<Vec<BalanceMove>> = RefCell::new(Vec::new());
    let record = |m: BalanceMove| -> Verdict {
        log.borrow_mut().push(m);
        Ok(m.amount())
    };
    let mut pallet = Pallet::new(8);
    assert_eq!(
        register(&mut pallet, signed(1), 0, policy(vec![2], 5), &record),
        module(Error::ZeroBudget)
    );
    assert!(log.borrow().is_empty());
    register(&mut pallet, signed(1), 10, policy(vec![2], 5), &record).unwrap();
    increase(&mut pallet, signed(1), 4, &record).unwrap();
    decrease(&mut pallet, signed(1), 3, &record).unwrap();
    unregister(&mut pallet, signed(1), &record).unwrap();
    assert_eq!(
        *log.borrow(),
        vec![
            BalanceMove::Hold { reason: BUDGET, who: acct(1), amount: 10 },
            BalanceMove::Hold { reason: BUDGET, who: acct(1), amount: 4 },
            BalanceMove::Release { reason: BUDGET, who: acct(1), amount: 3, precision: Precision::Exact },
            BalanceMove::Release { reason: BUDGET, who: acct(1), amount: 11, precision: Precision::Exact },
        ]
    );
}

#[test]
fn a_sponsored_payment_asks_for_exactly_its_moves() {
    let log: RefCell<Vec<BalanceMove>> = RefCell::new(Vec::new());
    let record = |m: BalanceMove| -> Verdict {
        log.borrow_mut().push(m);
        Ok(m.amount())
    };
    let mut pallet = registered(100, vec![2], 20);
    log.borrow_mut().clear();
    let ext = SponsoredChargeTransactionPayment::new(2, Some(acct(1)));
    let val = ext.validate(&pallet, signed(2), 15).unwrap();
    let pre = prepare(ext, &mut pallet, val, &record).unwrap();
    let settlement = settle_prepared(&mut pallet, pre, 9, &record);
    assert_eq!(settlement.restore, RestoreReport::Restored(6));
    assert_eq!(
        *log.borrow(),
        vec![
            BalanceMove::Release { reason: BUDGET, who: acct(1), amount: 15, precision: Precision::Exact },
            BalanceMove::Hold { reason: PENDING, who: acct(1), amount: 15 },
            BalanceMove::Slash { reason: PENDING, who: acct(1), amount: 9 },
            BalanceMove::Release { reason: PENDING, who: acct(1), amount: 6, precision: Precision::BestEffort },
            BalanceMove::Hold { reason: BUDGET, who: acct(1), amount: 6 },
        ]
    );
    assert_eq!(pallet.budget_on_hold(acct(1)), 91);
}

fn settle_prepared<F: Fn(BalanceMove) -> Verdict>(
    pallet: &mut Pallet,
    pre: SponsoredPre,
    actual: Balance,
    perform: &F,
) -> Settlement {
    match post_dispatch(pallet, pre, actual, unit_db(), perform) {
        PostDispatch::Sponsored(settlement) => settlement,
        PostDispatch::Unsponsored => panic!("the sponsored path must settle"),
    }
}

#[test]
fn budget_changes_require_registration_and_amounts() {
    let mut pallet = Pallet::new(8);
    assert_eq!(increase(&mut pallet, signed(1), 5, &accept), module(Error::NotRegistered));
    assert_eq!(decrease(&mut pallet, signed(1), 5, &accept), module(Error::NotRegistered));
    let mut pallet = registered(100, vec![2], 10);
    assert_eq!(increase(&mut pallet, signed(1), 0, &accept), module(Error::ZeroBudget));
    assert_eq!(decrease(&mut pallet, signed(1), 0, &accept), module(Error::ZeroBudget));
    assert_eq!(
        decrease(&mut pallet, signed(1), 101, &accept),
        module(Error::InsufficientAvailableBudget)
    );
    assert_eq!(
        increase(&mut pallet, signed(1), 7, &accept),
        Ok(Event::BudgetIncreased { sponsor: acct(1), amount: 7, new_budget: 107 })
    );
    assert_eq!(
        decrease(&mut pallet, signed(1), 107, &accept),
        Ok(Event::BudgetDecreased { sponsor: acct(1), amount: 107, new_budget: 0 })
    );
    let frozen = answering(Err(BalancesError::Frozen), Ok(()), Ok(()));
    assert_eq!(
        increase(&mut pallet, signed(1), 3, &frozen),
        Err(DispatchError::Balances(BalancesError::Frozen))
    );
    assert_eq!(pallet.budget_on_hold(acct(1)), 0);
}

#[test]
fn budgets_hold_full_balance_amounts() {
    let big: Balance = u128::MAX - 10;
    let mut pallet = registered(big, vec![2], 10);
    assert_eq!(pallet.budget_on_hold(acct(1)), big);
    assert_eq!(
        increase(&mut pallet, signed(1), 10, &accept),
        Ok(Event::BudgetIncreased { sponsor: acct(1), amount: 10, new_budget: u128::MAX })
    );
    // No account's holds can pass the balance type: the balances pallet refuses with Overflow.
    assert_eq!(
        increase(&mut pallet, signed(1), 1, &accept),
        Err(DispatchError::Balances(BalancesError::Overflow))
    );
    assert_eq!(pallet.budget_on_hold(acct(1)), u128::MAX);
    assert_eq!(
        decrease(&mut pallet, signed(1), 10, &accept),
        Ok(Event::BudgetDecreased { sponsor: acct(1), amount: 10, new_budget: big })
    );
}

#[test]
fn decrease_budget_fails_when_the_release_is_refused() {
    let mut pallet = registered(100, vec![2], 10);
    let refuse = answering(Ok(()), Err(BalancesError::CannotCreate), Ok(()));
    assert_eq!(
        decrease(&mut pallet, signed(1), 40, &refuse),
        Err(DispatchError::Balances(BalancesError::CannotCreate))
    );
    assert_eq!(pallet.budget_on_hold(acct(1)), 100);
}

#[test]
fn set_policy_replaces_allowlist_and_fee_cap() {
    let mut pallet = registered(100, vec![2], 10);
    assert_eq!(pallet.set_policy(signed(3), policy(vec![2], 10)), module(Error::NotRegistered));
    assert_eq!(
        pallet.set_policy(signed(1), policy(vec![3, 3], 10)),
        module(Error::DuplicateAllowedCaller)
    );
    assert!(pallet.pause(signed(1)).is_ok());
    assert_eq!(
        pallet.set_policy(signed(1), policy(vec![3], 20)),
        Ok(Event::SponsorPolicyUpdated { sponsor: acct(1) })
    );
    let state = pallet.sponsor_state(acct(1)).unwrap();
    assert!(!state.active);
    assert_eq!(state.policy.allowed_callers, vec![acct(3)]);
    assert_eq!(state.policy.max_fee_per_tx, 20);
    assert!(pallet.resume(signed(1)).is_ok());

    let ext = SponsoredChargeTransactionPayment::new(0, Some(acct(1)));
    assert_eq!(
        ext.validate(&pallet, signed(2), 15),
        Err(invalid(InvalidSponsoredTransaction::CallerNotAllowed))
    );
    assert!(ext.validate(&pallet, signed(3), 15).is_ok());
}

#[test]
fn pause_and_resume_refuse_repeats() {
    let mut pallet = registered(100, vec![2], 10);
    assert_eq!(pallet.resume(signed(1)), module(Error::AlreadyActive));
    assert_eq!(pallet.pause(signed(1)), Ok(Event::SponsorPaused { sponsor: acct(1) }));
    assert_eq!(pallet.pause(signed(1)), module(Error::AlreadyPaused));
    assert_eq!(pallet.resume(signed(1)), Ok(Event::SponsorResumed { sponsor: acct(1) }));
    assert_eq!(pallet.pause(signed(9)), module(Error::NotRegistered));
    assert_eq!(pallet.pause(Origin::Root), Err(DispatchError::BadOrigin));
}

#[test]
fn pause_then_resume_restores_the_sponsor() {
    let mut pallet = registered(100, vec![2, 3], 10);
    pallet.pause(signed(1)).unwrap();
    pallet.resume(signed(1)).unwrap();
    let state = pallet.sponsor_state(acct(1)).unwrap();
    assert!(state.active);
    assert_eq!(state.policy.allowed_callers, vec![acct(2), acct(3)]);
    assert_eq!(state.policy.max_fee_per_tx, 10);
    assert_eq!(pallet.budget_on_hold(acct(1)), 100);
}

#[test]
fn increase_then_decrease_restores_the_budget() {
    let mut pallet = registered(100, vec![2], 10);
    increase(&mut pallet, signed(1), 33, &accept).unwrap();
    decrease(&mut pallet, signed(1), 33, &accept).unwrap();
    assert_eq!(pallet.budget_on_hold(acct(1)), 100);
    assert_eq!(pallet.pending_on_hold(acct(1)), 0);
}

#[test]
fn register_then_unregister_releases_everything() {
    let mut pallet = registered(100, vec![2], 10);
    register(&mut pallet, signed(4), 50, policy(vec![2], 10), &accept).unwrap();
    assert_eq!(
        unregister(&mut pallet, signed(4), &accept),
        Ok(Event::SponsorUnregistered { sponsor: acct(4) })
    );
    assert!(pallet.sponsor_state(acct(4)).is_none());
    assert_eq!(pallet.budget_on_hold(acct(4)), 0);
    assert_eq!(pallet.budget_on_hold(acct(1)), 100);
}

#[test]
fn unregister_rules() {
    let mut pallet = registered(100, vec![2], 10);
    let refuse = answering(Ok(()), Err(BalancesError::CannotCreate), Ok(()));
    assert_eq!(unregister(&mut pallet, signed(2), &accept), module(Error::NotRegistered));
    assert_eq!(
        unregister(&mut pallet, signed(1), &refuse),
        Err(DispatchError::Balances(BalancesError::CannotCreate))
    );
    assert!(pallet.sponsor_state(acct(1)).is_some());
    assert_eq!(pallet.budget_on_hold(acct(1)), 100);
    // With nothing left on hold, the balances pallet is not asked.
    decrease(&mut pallet, signed(1), 100, &accept).unwrap();
    assert_eq!(unregister(&mut pallet, signed(1), &refuse), Ok(Event::SponsorUnregistered { sponsor: acct(1) }));
    assert!(pallet.sponsor_state(acct(1)).is_none());
}

#[test]
fn validation_refusals_come_in_order() {
    let pallet = registered(10, vec![2], 8);
    let ext = SponsoredChargeTransactionPayment::new(1, Some(acct(1)));
    assert_eq!(ext.tip(), 1);
    assert_eq!(ext.sponsor(), Some(acct(1)));
    assert_eq!(
        ext.validate(&pallet, Origin::Root, 3),
        Err(TransactionValidityError::Invalid(InvalidTransaction::Custom(0)))
    );
    let unknown = SponsoredChargeTransactionPayment::new(1, Some(acct(9)));
    assert_eq!(
        unknown.validate(&pallet, signed(2), 3),
        Err(TransactionValidityError::Invalid(InvalidTransaction::Custom(1)))
    );
    assert_eq!(
        ext.validate(&pallet, signed(3), 99),
        Err(invalid(InvalidSponsoredTransaction::CallerNotAllowed))
    );
    assert_eq!(
        ext.validate(&pallet, signed(2), 9),
        Err(invalid(InvalidSponsoredTransaction::FeeCapExceeded))
    );
    assert_eq!(
        ext.validate(&pallet, signed(2), 8),
        Ok(SponsoredVal::Sponsored { sponsor: acct(1), signer: acct(2), fee_with_tip: 8, tip: 1 })
    );
    let lean = registered(5, vec![2], 8);
    assert_eq!(
        ext.validate(&lean, signed(2), 6),
        Err(invalid(InvalidSponsoredTransaction::InsufficientBudget))
    );
    assert!(ext.validate(&lean, signed(2), 5).is_ok());
}

#[test]
fn refusal_codes() {
    assert_eq!(InvalidSponsoredTransaction::UnsupportedOrigin.code(), 0);
    assert_eq!(InvalidSponsoredTransaction::UnknownSponsor.code(), 1);
    assert_eq!(InvalidSponsoredTransaction::InactiveSponsor.code(), 2);
    assert_eq!(InvalidSponsoredTransaction::CallerNotAllowed.code(), 3);
    assert_eq!(InvalidSponsoredTransaction::FeeCapExceeded.code(), 4);
    assert_eq!(InvalidSponsoredTransaction::InsufficientBudget.code(), 5);
}

#[test]
fn prepare_reports_refused_moves_as_payment_failures() {
    let payment = Err(TransactionValidityError::Invalid(InvalidTransaction::Payment));
    let val = SponsoredVal::Sponsored { sponsor: acct(1), signer: acct(2), fee_with_tip: 4, tip: 0 };
    let ext = SponsoredChargeTransactionPayment::new(0, Some(acct(1)));

    let mut pallet = registered(10, vec![2], 8);
    let release_refused = answering(Ok(()), Err(BalancesError::CannotCreate), Ok(()));
    assert_eq!(prepare(ext, &mut pallet, val, &release_refused), payment);
    assert_eq!(pallet.budget_on_hold(acct(1)), 10);
    assert_eq!(pallet.pending_on_hold(acct(1)), 0);

    // The release went through but the pending hold did not: the funds are left free.
    let hold_refused = answering(Err(BalancesError::CannotCreateHold), Ok(()), Ok(()));
    assert_eq!(prepare(ext, &mut pallet, val, &hold_refused), payment);
    assert_eq!(pallet.budget_on_hold(acct(1)), 6);
    assert_eq!(pallet.pending_on_hold(acct(1)), 0);

    // A reservation above the budget is refused by the exact release.
    let big = SponsoredVal::Sponsored { sponsor: acct(1), signer: acct(2), fee_with_tip: 7, tip: 0 };
    assert_eq!(prepare(ext, &mut pallet, big, &accept), payment);
    assert_eq!(pallet.budget_on_hold(acct(1)), 6);

    assert_eq!(
        prepare(ext, &mut pallet, val, &accept),
        Ok(SponsoredPre::Sponsored {
            sponsor: acct(1),
            signer: acct(2),
            estimated_fee_with_tip: 4,
            tip: 0
        })
    );
    assert_eq!(pallet.budget_on_hold(acct(1)), 2);
    assert_eq!(pallet.pending_on_hold(acct(1)), 4);
}

#[test]
fn settlement_charges_the_actual_fee_and_restores_the_rest() {
    let mut pallet = registered(100, vec![2], 50);
    reserve(&mut pallet, acct(1), 30, &accept).unwrap();
    let settlement = settle(&mut pallet, 30, 4, 12, &accept);
    assert_eq!(
        settlement.event,
        Event::SponsoredTransactionFeePaid { sponsor: acct(1), signer: acct(2), actual_fee: 12, tip: 4 }
    );
    assert_eq!(settlement.fee_credit, 8);
    assert_eq!(settlement.tip_credit, 4);
    assert!(!settlement.estimate_exceeded);
    assert_eq!(settlement.shortfall, 0);
    assert_eq!(settlement.restore, RestoreReport::Restored(18));
    assert_eq!(settlement.weight, Weight { ref_time: 7 * 10 + 7 * 100, proof_size: 0 });
    assert_eq!(pallet.pending_on_hold(acct(1)), 0);
    assert_eq!(pallet.budget_on_hold(acct(1)), 88);
}

#[test]
fn settlement_clamps_fees_above_the_estimate() {
    let mut pallet = registered(100, vec![2], 50);
    reserve(&mut pallet, acct(1), 30, &accept).unwrap();
    let settlement = settle(&mut pallet, 30, 40, 45, &accept);
    assert!(settlement.estimate_exceeded);
    assert_eq!(
        settlement.event,
        Event::SponsoredTransactionFeePaid { sponsor: acct(1), signer: acct(2), actual_fee: 30, tip: 30 }
    );
    assert_eq!(settlement.tip_credit, 30);
    assert_eq!(settlement.fee_credit, 0);
    assert_eq!(settlement.restore, RestoreReport::NothingPending);
    assert_eq!(pallet.budget_on_hold(acct(1)), 70);
    assert_eq!(pallet.pending_on_hold(acct(1)), 0);
}

#[test]
fn settlement_charges_no_more_than_is_pending() {
    let mut pallet = registered(100, vec![2], 50);
    reserve(&mut pallet, acct(1), 10, &accept).unwrap();
    let settlement = settle(&mut pallet, 30, 0, 25, &accept);
    assert_eq!(settlement.shortfall, 15);
    assert_eq!(
        settlement.event,
        Event::SponsoredTransactionFeePaid { sponsor: acct(1), signer: acct(2), actual_fee: 10, tip: 0 }
    );
    assert_eq!(settlement.fee_credit, 10);
    assert_eq!(pallet.budget_on_hold(acct(1)), 90);
}

#[test]
fn settlement_when_the_slash_is_refused() {
    let mut pallet = registered(100, vec![2], 50);
    reserve(&mut pallet, acct(1), 20, &accept).unwrap();
    let slash_refused = answering(Ok(()), Ok(()), Err(BalancesError::Other));
    let settlement = settle(&mut pallet, 20, 3, 15, &slash_refused);
    assert_eq!(settlement.shortfall, 15);
    assert_eq!(
        settlement.event,
        Event::SponsoredTransactionFeePaid { sponsor: acct(1), signer: acct(2), actual_fee: 0, tip: 0 }
    );
    assert_eq!(settlement.fee_credit + settlement.tip_credit, 0);
    assert_eq!(settlement.restore, RestoreReport::Restored(20));
    assert_eq!(pallet.budget_on_hold(acct(1)), 100);
}

#[test]
fn restore_reports_each_failure() {
    let mut pallet = registered(100, vec![2], 50);
    assert_eq!(restore(&mut pallet, acct(1), &accept), RestoreReport::NothingPending);
    reserve(&mut pallet, acct(1), 20, &accept).unwrap();
    let release_refused = answering(Ok(()), Err(BalancesError::CannotCreate), Ok(()));
    assert_eq!(
        restore(&mut pallet, acct(1), &release_refused),
        RestoreReport::ReleaseFailed(BalancesError::CannotCreate)
    );
    assert_eq!(pallet.pending_on_hold(acct(1)), 20);
    let hold_refused = answering(Err(BalancesError::CannotCreateHold), Ok(()), Ok(()));
    assert_eq!(
        restore(&mut pallet, acct(1), &hold_refused),
        RestoreReport::RestoreHoldFailed { released: 20, error: BalancesError::CannotCreateHold }
    );
    assert_eq!(pallet.pending_on_hold(acct(1)), 0);
    assert_eq!(pallet.budget_on_hold(acct(1)), 80);
}

#[test]
fn slash_pending_takes_what_is_held() {
    let mut pallet = registered(100, vec![2], 50);
    reserve(&mut pallet, acct(1), 20, &accept).unwrap();
    assert_eq!(slash(&mut pallet, acct(1), 15, &accept), (15, 0));
    assert_eq!(slash(&mut pallet, acct(1), 15, &accept), (5, 10));
    assert_eq!(pallet.pending_on_hold(acct(1)), 0);
    assert_eq!(pallet.budget_on_hold(acct(1)), 80);
}

#[test]
fn hold_ledger_follows_the_hold_rules() {
    let mut ledger = HoldLedger::new();
    assert_eq!(ledger.hold(BUDGET, acct(1), 50, Ok(50)), Ok(()));
    assert_eq!(
        ledger.hold(BUDGET, acct(1), 5, Err(BalancesError::BelowMinimum)),
        Err(BalancesError::BelowMinimum)
    );
    assert_eq!(ledger.balance_on_hold(BUDGET, acct(1)), 50);
    assert_eq!(
        ledger.release(BUDGET, acct(1), 60, Precision::Exact, Ok(60)),
        Err(BalancesError::FundsUnavailable)
    );
    assert_eq!(ledger.release(BUDGET, acct(1), 60, Precision::BestEffort, Ok(50)), Ok(50));
    assert_eq!(ledger.balance_on_hold(BUDGET, acct(1)), 0);
    assert_eq!(ledger.hold(PENDING, acct(1), 9, Ok(9)), Ok(()));
    assert_eq!(ledger.slash(PENDING, acct(1), 12, Ok(9)), (9, 3));
    assert_eq!(ledger.slash(PENDING, acct(1), 4, Err(BalancesError::Other)), (0, 4));
    assert_eq!(ledger.hold(PENDING, acct(1), u128::MAX - 1, Ok(u128::MAX - 1)), Ok(()));
    assert_eq!(ledger.hold(BUDGET, acct(1), 1, Ok(1)), Ok(()));
    // The account's held total is at the maximum: a further hold under either reason overflows.
    assert_eq!(ledger.hold(PENDING, acct(1), 1, Ok(1)), Err(BalancesError::Overflow));
    assert_eq!(ledger.hold(BUDGET, acct(1), 1, Ok(1)), Err(BalancesError::Overflow));
    assert_eq!(ledger.balance_on_hold(PENDING, acct(1)), u128::MAX - 1);
    assert_eq!(ledger.balance_on_hold(BUDGET, acct(1)), 1);
    assert_eq!(ledger.balance_on_hold(BUDGET, acct(2)), 0);
    let seeded = HoldLedger::with_amounts(acct(3), 7, 2);
    assert_eq!(seeded.balance_on_hold(BUDGET, acct(3)), 7);
    assert_eq!(seeded.balance_on_hold(PENDING, acct(3)), 2);
}

#[test]
fn sponsored_extension_weight() {
    let ext = SponsoredChargeTransactionPayment::new(0, Some(acct(1)));
    assert_eq!(ext.weight(unit_db()), Some(Weight { ref_time: 6 * 10 + 4 * 100, proof_size: 0 }));
}

#[test]
fn call_weights() {
    let rocks = ();
    assert_eq!(rocks.register_sponsor(), Weight { ref_time: 20_000_000 + 2 * 25_000_000 + 2 * 100_000_000, proof_size: 0 });
    assert_eq!(rocks.increase_budget(), Weight { ref_time: 12_000_000 + 2 * 25_000_000 + 100_000_000, proof_size: 0 });
    assert_eq!(rocks.decrease_budget(), Weight { ref_time: 12_000_000 + 2 * 25_000_000 + 100_000_000, proof_size: 0 });
    assert_eq!(rocks.set_policy(), Weight { ref_time: 12_000_000 + 25_000_000 + 100_000_000, proof_size: 0 });
    assert_eq!(rocks.pause(), Weight { ref_time: 8_000_000 + 25_000_000 + 100_000_000, proof_size: 0 });
    assert_eq!(rocks.resume(), Weight { ref_time: 8_000_000 + 25_000_000 + 100_000_000, proof_size: 0 });
    assert_eq!(rocks.unregister(), Weight { ref_time: 16_000_000 + 2 * 25_000_000 + 2 * 100_000_000, proof_size: 0 });
    assert_eq!(rocks_db_weight(), RuntimeDbWeight { read: 25_000_000, write: 100_000_000 });

    let custom = SubstrateWeight { db: unit_db() };
    assert_eq!(custom.register_sponsor(), Weight { ref_time: 20_000_220, proof_size: 0 });
    assert_eq!(custom.pause(), Weight { ref_time: 8_000_110, proof_size: 0 });
    let huge = SubstrateWeight { db: RuntimeDbWeight { read: u64::MAX, write: 1 } };
    assert_eq!(huge.unregister(), Weight { ref_time: u64::MAX, proof_size: 0 });
    assert_eq!(
        Weight::from_parts(u64::MAX, 3).saturating_add(Weight::from_parts(1, 4)),
        Weight { ref_time: u64::MAX, proof_size: 7 }
    );
}

#[test]
fn benchmark_balances() {
    assert_eq!(minimum_balance(0), 1);
    assert_eq!(minimum_balance(500), 500);
    assert_eq!(default_initial_budget(0), 10);
    assert_eq!(default_initial_budget(7), 70);
    assert_eq!(default_budget_delta(7), 14);
    assert_eq!(setup_balance(7), 700);
    assert_eq!(setup_balance(u128::MAX / 50), u128::MAX);
}

#[test]
fn sponsored_payment_end_to_end() {
    let mut pallet = registered(100, vec![2], 20);
    let ext = SponsoredChargeTransactionPayment::new(3, Some(acct(1)));
    let val = ext.validate(&pallet, signed(2), 15).unwrap();
    let pre = prepare(ext, &mut pallet, val, &accept).unwrap();
    assert_eq!(pallet.budget_on_hold(acct(1)), 85);
    assert_eq!(pallet.pending_on_hold(acct(1)), 15);
    let settlement = settle_prepared(&mut pallet, pre, 11, &accept);
    assert_eq!(
        settlement.event,
        Event::SponsoredTransactionFeePaid { sponsor: acct(1), signer: acct(2), actual_fee: 11, tip: 3 }
    );
    assert_eq!(settlement.fee_credit, 8);
    assert_eq!(settlement.tip_credit, 3);
    assert_eq!(pallet.budget_on_hold(acct(1)), 89);
    assert_eq!(pallet.pending_on_hold(acct(1)), 0);
    assert_eq!(pallet.max_allowed_callers(), 8);
}

#[test]
fn consecutive_sponsored_payments_charge_the_sum_of_their_fees() {
    let mut pallet = registered(100, vec![2], 20);
    // (fee with tip, tip, actual fee with tip) of each transaction, one after another.
    let payments: Vec<(Balance, Balance, Balance)> = vec![(15, 3, 11), (12, 0, 12), (20, 5, 25), (9, 9, 4)];
    let mut charged: Vec<Balance> = Vec::new();
    for (fee_with_tip, tip, actual) in payments {
        let ext = SponsoredChargeTransactionPayment::new(tip, Some(acct(1)));
        let val = ext.validate(&pallet, signed(2), fee_with_tip).unwrap();
        let pre = prepare(ext, &mut pallet, val, &accept).unwrap();
        let settlement = settle_prepared(&mut pallet, pre, actual, &accept);
        match settlement.event {
            Event::SponsoredTransactionFeePaid { actual_fee, .. } => charged.push(actual_fee),
            _ => panic!("a sponsored settlement records the payment"),
        }
        assert_eq!(pallet.pending_on_hold(acct(1)), 0);
    }
    assert_eq!(charged, vec![11, 12, 20, 4]);
    assert_eq!(pallet.budget_on_hold(acct(1)), 100 - (11 + 12 + 20 + 4));
}

#[test]
fn a_pallet_for_one_account() {
    let state = SponsorState { active: false, policy: policy(vec![2, 3], 9) };
    let pallet = Pallet::with_account(8, acct(1), Some(state), 40, 6).unwrap();
    assert_eq!(pallet.budget_on_hold(acct(1)), 40);
    assert_eq!(pallet.pending_on_hold(acct(1)), 6);
    assert_eq!(pallet.budget_on_hold(acct(2)), 0);
    assert!(!pallet.sponsor_state(acct(1)).unwrap().active);
    assert!(pallet.sponsor_state(acct(2)).is_none());

    let duplicated = SponsorState { active: true, policy: policy(vec![2, 2], 9) };
    assert!(Pallet::with_account(8, acct(1), Some(duplicated), 40, 6).is_none());
    let too_long = SponsorState { active: true, policy: policy(vec![2, 3, 4], 9) };
    assert!(Pallet::with_account(2, acct(1), Some(too_long), 40, 6).is_none());
    let empty = Pallet::with_account(2, acct(5), None, 0, 0).unwrap();
    assert!(empty.sponsor_state(acct(5)).is_none());
    // Holds without a registration, or holds past the balance type, are refused.
    assert!(Pallet::with_account(2, acct(5), None, 3, 0).is_none());
    assert!(Pallet::with_account(2, acct(5), None, 0, 3).is_none());
    let full = SponsorState { active: true, policy: policy(vec![2], 9) };
    assert!(Pallet::with_account(8, acct(1), Some(full.clone()), u128::MAX, 1).is_none());
    assert!(Pallet::with_account(8, acct(1), Some(full), u128::MAX - 1, 1).is_some());
}

#[test]
fn clamping_to_the_estimate() {
    assert_eq!(clamp_to_estimate(10, 4), 4);
    assert_eq!(clamp_to_estimate(10, 10), 10);
    assert_eq!(clamp_to_estimate(10, 11), 10);
}

#[test]
fn no_holds_outside_the_registry() {
    let mut pallet = registered(100, vec![2], 20);
    let hold_refused = answering(Err(BalancesError::CannotCreateHold), Ok(()), Ok(()));
    assert!(register(&mut pallet, signed(4), 30, policy(vec![2], 9), &hold_refused).is_err());
    assert!(pallet.sponsor_state(acct(4)).is_none());
    assert_eq!(pallet.budget_on_hold(acct(4)), 0);
    assert_eq!(pallet.pending_on_hold(acct(4)), 0);

    // A reservation against an account that is not a sponsor moves nothing.
    let ext = SponsoredChargeTransactionPayment::new(0, Some(acct(4)));
    let stray = SponsoredVal::Sponsored { sponsor: acct(4), signer: acct(2), fee_with_tip: 5, tip: 0 };
    assert!(prepare(ext, &mut pallet, stray, &accept).is_err());
    assert_eq!(pallet.budget_on_hold(acct(4)), 0);
    assert_eq!(pallet.pending_on_hold(acct(4)), 0);

    // A sponsor with a payment in flight cannot leave; once it is settled, leaving releases all.
    let sponsor_ext = SponsoredChargeTransactionPayment::new(0, Some(acct(1)));
    let val = sponsor_ext.validate(&pallet, signed(2), 10).unwrap();
    let pre = prepare(sponsor_ext, &mut pallet, val, &accept).unwrap();
    assert_eq!(unregister(&mut pallet, signed(1), &accept), module(Error::PendingBudgetNotEmpty));
    settle_prepared(&mut pallet, pre, 6, &accept);
    assert_eq!(
        unregister(&mut pallet, signed(1), &accept),
        Ok(Event::SponsorUnregistered { sponsor: acct(1) })
    );
    assert!(pallet.sponsor_state(acct(1)).is_none());
    assert_eq!(pallet.budget_on_hold(acct(1)), 0);
    assert_eq!(pallet.pending_on_hold(acct(1)), 0);
}

#[test]
fn restore_holds_back_what_the_release_freed() {
    let mut pallet = registered(100, vec![2], 50);
    reserve(&mut pallet, acct(1), 20, &accept).unwrap();
    // The balances pallet takes all 20 off hold but can return only 15 to the free balance.
    let log: RefCell<Vec<BalanceMove>> = RefCell::new(Vec::new());
    let short = |m: BalanceMove| -> Verdict {
        log.borrow_mut().push(m);
        match m {
            BalanceMove::Release { amount, .. } => Ok(amount - 5),
            _ => Ok(m.amount()),
        }
    };
    assert_eq!(restore(&mut pallet, acct(1), &short), RestoreReport::Restored(15));
    assert_eq!(
        *log.borrow(),
        vec![
            BalanceMove::Release { reason: PENDING, who: acct(1), amount: 20, precision: Precision::BestEffort },
            BalanceMove::Hold { reason: BUDGET, who: acct(1), amount: 15 },
        ]
    );
    assert_eq!(pallet.pending_on_hold(acct(1)), 0);
    assert_eq!(pallet.budget_on_hold(acct(1)), 95);

    // Freeing nothing asks for no hold.
    reserve(&mut pallet, acct(1), 10, &accept).unwrap();
    let nothing = |m: BalanceMove| -> Verdict {
        match m {
            BalanceMove::Release { .. } => Ok(0),
            _ => Ok(m.amount()),
        }
    };
    assert_eq!(restore(&mut pallet, acct(1), &nothing), RestoreReport::NothingReleased);
    assert_eq!(pallet.pending_on_hold(acct(1)), 0);
    assert_eq!(pallet.budget_on_hold(acct(1)), 85);
}
