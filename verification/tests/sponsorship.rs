use pallet_sponsored_tx::extension::{
    InvalidTransaction, PostDispatch, SponsoredChargeTransactionPayment, SponsoredPre,
    SponsoredVal, TransactionValidityError,
};
use pallet_sponsored_tx::holds::{BalanceMove, Precision};
use pallet_sponsored_tx::pallet::Pallet;
use pallet_sponsored_tx::types::{
    AccountId, Balance, DispatchError, Error, Event, HoldReason, Origin, SponsorPolicy, Verdict,
};
use pallet_sponsored_tx::weights::{rocks_db_weight, RuntimeDbWeight};
use std::cell::RefCell;

/// The allowlist bound of the test runtime.
const MAX_ALLOWED_CALLERS: u32 = 8;

/// The fee the test runtime charges for the remark call before the tip: a weight fee of one and a
/// base fee of one, with no length fee.
const REMARK_FEE: Balance = 2;

/// The test runtime's account with the given index.
fn account(index: u64) -> AccountId {
    (index, 0, 0, 0)
}

/// The balances pallet accepting every move in full.
fn accept(m: BalanceMove) -> Verdict {
    Ok(m.amount())
}

fn new_test_ext() -> Pallet {
    Pallet::new(MAX_ALLOWED_CALLERS)
}

fn policy(callers: Vec<u64>, max_fee_per_tx: Balance) -> SponsorPolicy {
    SponsorPolicy { allowed_callers: callers.into_iter().map(account).collect(), max_fee_per_tx }
}

fn db() -> RuntimeDbWeight {
    rocks_db_weight()
}

fn custom(code: u8) -> TransactionValidityError {
    TransactionValidityError::Invalid(InvalidTransaction::Custom(code))
}

/// Validates and prepares a sponsored transaction, with the balances pallet accepting both
/// moves.
fn validate_and_prepare(
    pallet: &mut Pallet,
    ext: SponsoredChargeTransactionPayment,
    signer: u64,
    fee_with_tip: Balance,
) -> Result<SponsoredPre, TransactionValidityError> {
    let val = ext.validate(pallet, Origin::Signed(account(signer)), fee_with_tip)?;
    prepare(ext, pallet, val, &accept)
}

/// Has the balances pallet, as `answer` stands for it, perform each move a call asks for, one
/// after another until the call asks for none, and returns its verdicts in order.
fn answer_moves<N: Fn(&Vec<Verdict>) -> Option<BalanceMove>, F: Fn(BalanceMove) -> Verdict>(
    next: N,
    answer: &F,
) -> Vec<Verdict> {
    let mut verdicts = Vec::new();
    while let Some(m) = next(&verdicts) {
        verdicts.push(answer(m));
    }
    verdicts
}

fn register<F: Fn(BalanceMove) -> Verdict>(
    pallet: &mut Pallet,
    origin: Origin,
    initial_budget: Balance,
    policy: SponsorPolicy,
    answer: &F,
) -> Result<Event, DispatchError> {
    let verdicts = answer_moves(
        |v: &Vec<Verdict>| pallet.register_sponsor_move(origin, initial_budget, &policy, v),
        answer,
    );
    pallet.register_sponsor(origin, initial_budget, policy, &verdicts)
}

fn increase<F: Fn(BalanceMove) -> Verdict>(
    pallet: &mut Pallet,
    origin: Origin,
    amount: Balance,
    answer: &F,
) -> Result<Event, DispatchError> {
    let verdicts =
        answer_moves(|v: &Vec<Verdict>| pallet.increase_budget_move(origin, amount, v), answer);
    pallet.increase_budget(origin, amount, &verdicts)
}

fn decrease<F: Fn(BalanceMove) -> Verdict>(
    pallet: &mut Pallet,
    origin: Origin,
    amount: Balance,
    answer: &F,
) -> Result<Event, DispatchError> {
    let verdicts =
        answer_moves(|v: &Vec<Verdict>| pallet.decrease_budget_move(origin, amount, v), answer);
    pallet.decrease_budget(origin, amount, &verdicts)
}

fn unregister<F: Fn(BalanceMove) -> Verdict>(
    pallet: &mut Pallet,
    origin: Origin,
    answer: &F,
) -> Result<Event, DispatchError> {
    let verdicts = answer_moves(|v: &Vec<Verdict>| pallet.unregister_move(origin, v), answer);
    pallet.unregister(origin, &verdicts)
}

fn prepare<F: Fn(BalanceMove) -> Verdict>(
    ext: SponsoredChargeTransactionPayment,
    pallet: &mut Pallet,
    val: SponsoredVal,
    answer: &F,
) -> Result<SponsoredPre, TransactionValidityError> {
    let verdicts = answer_moves(|v: &Vec<Verdict>| ext.prepare_move(pallet, val, v), answer);
    ext.prepare(pallet, val, &verdicts)
}

fn post_dispatch<F: Fn(BalanceMove) -> Verdict>(
    pallet: &mut Pallet,
    pre: SponsoredPre,
    actual_fee_with_tip: Balance,
    db: RuntimeDbWeight,
    answer: &F,
) -> PostDispatch {
    let verdicts = answer_moves(
        |v: &Vec<Verdict>| {
            SponsoredChargeTransactionPayment::post_dispatch_move(pallet, pre, actual_fee_with_tip, v)
        },
        answer,
    );
    SponsoredChargeTransactionPayment::post_dispatch_details(pallet, pre, actual_fee_with_tip, db, &verdicts)
}

#[test]
fn register_sponsor_holds_budget() {
    let mut pallet = new_test_ext();
    assert!(register(&mut pallet, Origin::Signed(account(1)), 200, policy(vec![2], 50), &accept)
        .is_ok());
    assert_eq!(pallet.budget_on_hold(account(1)), 200);
    assert_eq!(pallet.pending_on_hold(account(1)), 0);
}

#[test]
fn register_requires_non_empty_unique_allowlist() {
    let mut pallet = new_test_ext();
    assert_eq!(
        register(&mut pallet, Origin::Signed(account(1)), 200, policy(vec![], 50), &accept),
        Err(DispatchError::Module(Error::EmptyAllowlist))
    );
    assert!(pallet.sponsor_state(account(1)).is_none());
    assert_eq!(pallet.budget_on_hold(account(1)), 0);

    let dup_policy = policy(vec![2, 2], 50);
    assert_eq!(
        register(&mut pallet, Origin::Signed(account(1)), 200, dup_policy, &accept),
        Err(DispatchError::Module(Error::DuplicateAllowedCaller))
    );
    assert!(pallet.sponsor_state(account(1)).is_none());
    assert_eq!(pallet.budget_on_hold(account(1)), 0);
}

#[test]
fn can_increase_decrease_pause_resume_and_unregister() {
    let mut pallet = new_test_ext();
    assert!(register(&mut pallet, Origin::Signed(account(1)), 200, policy(vec![2], 50), &accept)
        .is_ok());
    assert!(increase(&mut pallet, Origin::Signed(account(1)), 25, &accept).is_ok());
    assert_eq!(pallet.budget_on_hold(account(1)), 225);

    assert!(decrease(&mut pallet, Origin::Signed(account(1)), 20, &accept).is_ok());
    assert_eq!(pallet.budget_on_hold(account(1)), 205);

    assert!(pallet.pause(Origin::Signed(account(1))).is_ok());
    assert!(pallet.resume(Origin::Signed(account(1))).is_ok());
    assert!(unregister(&mut pallet, Origin::Signed(account(1)), &accept).is_ok());
    assert!(pallet.sponsor_state(account(1)).is_none());
    assert_eq!(pallet.budget_on_hold(account(1)), 0);
}

#[test]
fn sponsored_validation_accepts_allowlisted_signer() {
    let mut pallet = new_test_ext();
    assert!(register(&mut pallet, Origin::Signed(account(1)), 200, policy(vec![2], 50), &accept)
        .is_ok());
    let ext = SponsoredChargeTransactionPayment::new(0, Some(account(1)));

    assert!(ext.validate(&pallet, Origin::Signed(account(2)), REMARK_FEE).is_ok());
}

#[test]
fn sponsored_validation_rejects_non_allowlisted_signer() {
    let mut pallet = new_test_ext();
    assert!(register(&mut pallet, Origin::Signed(account(1)), 200, policy(vec![2], 50), &accept)
        .is_ok());
    let ext = SponsoredChargeTransactionPayment::new(0, Some(account(1)));

    let err = ext.validate(&pallet, Origin::Signed(account(3)), REMARK_FEE).unwrap_err();
    assert_eq!(err, custom(3));
}

#[test]
fn sponsored_prepare_moves_budget_to_pending_and_post_dispatch_restores_refund() {
    let mut pallet = new_test_ext();
    assert!(register(&mut pallet, Origin::Signed(account(1)), 200, policy(vec![2], 50), &accept)
        .is_ok());
    let ext = SponsoredChargeTransactionPayment::new(0, Some(account(1)));

    let estimated_fee = REMARK_FEE;
    let pre = validate_and_prepare(&mut pallet, ext, 2, estimated_fee).unwrap();

    assert_eq!(pallet.budget_on_hold(account(1)), 200 - estimated_fee);
    assert_eq!(pallet.pending_on_hold(account(1)), estimated_fee);

    // With half the call weight used, the test runtime's fee is unchanged.
    let actual_fee = REMARK_FEE;
    let outcome = post_dispatch(
        &mut pallet,
        pre,
        actual_fee,
        db(),
        &accept,
    );

    assert_eq!(pallet.pending_on_hold(account(1)), 0);
    assert!(pallet.budget_on_hold(account(1)) < 200);
    match outcome {
        PostDispatch::Sponsored(settlement) => assert_eq!(
            settlement.event,
            Event::SponsoredTransactionFeePaid { sponsor: account(1), signer: account(2), actual_fee, tip: 0 }
        ),
        PostDispatch::Unsponsored => panic!("the sponsored path must settle"),
    }
}

#[test]
fn unsponsored_path_keeps_signer_payment_behavior() {
    let mut pallet = new_test_ext();
    let ext = SponsoredChargeTransactionPayment::new(0, None);

    let val = ext.validate(&pallet, Origin::Signed(account(2)), REMARK_FEE).unwrap();
    assert_eq!(val, SponsoredVal::Unsponsored);
    // Every balance move the rules ask for is recorded; the unsponsored path asks for none.
    let moves: RefCell<Vec<BalanceMove>> = RefCell::new(Vec::new());
    let record = |m: BalanceMove| -> Verdict {
        moves.borrow_mut().push(m);
        Ok(m.amount())
    };
    let pre = prepare(ext, &mut pallet, val, &record).unwrap();
    assert_eq!(pre, SponsoredPre::Unsponsored);
    let outcome = post_dispatch(
        &mut pallet,
        pre,
        REMARK_FEE,
        db(),
        &record,
    );
    assert_eq!(outcome, PostDispatch::Unsponsored);
    // The signer's own payment is left to the normal payment path: no sponsor funds move.
    assert!(moves.borrow().is_empty());
    assert_eq!(pallet.budget_on_hold(account(2)), 0);
    assert_eq!(pallet.pending_on_hold(account(2)), 0);
    assert!(ext.weight(db()).is_none());
}

#[test]
fn sponsored_validation_rejects_inactive_sponsor() {
    let mut pallet = new_test_ext();
    assert!(register(&mut pallet, Origin::Signed(account(1)), 200, policy(vec![2], 50), &accept)
        .is_ok());
    assert!(pallet.pause(Origin::Signed(account(1))).is_ok());

    let ext = SponsoredChargeTransactionPayment::new(0, Some(account(1)));

    let err = ext.validate(&pallet, Origin::Signed(account(2)), REMARK_FEE).unwrap_err();
    assert_eq!(err, custom(2));
}

#[test]
fn sponsored_validation_rejects_fee_cap_exceeded() {
    let mut pallet = new_test_ext();
    // Register with a very low max_fee_per_tx (1) so any real call exceeds the cap.
    assert!(register(&mut pallet, Origin::Signed(account(1)), 200, policy(vec![2], 1), &accept)
        .is_ok());

    let ext = SponsoredChargeTransactionPayment::new(0, Some(account(1)));

    let fee = REMARK_FEE;
    assert!(fee > 1, "fee {fee} must exceed the cap for this test to be meaningful");

    let err = ext.validate(&pallet, Origin::Signed(account(2)), fee).unwrap_err();
    assert_eq!(err, custom(4));
}

#[test]
fn sponsored_validation_rejects_insufficient_budget() {
    let mut pallet = new_test_ext();
    // Register with budget of 1 — far too small for any real fee.
    assert!(register(&mut pallet, Origin::Signed(account(1)), 1, policy(vec![2], 500), &accept)
        .is_ok());

    let ext = SponsoredChargeTransactionPayment::new(0, Some(account(1)));

    let fee = REMARK_FEE;
    assert!(fee > 1, "fee {fee} must exceed budget for this test to be meaningful");

    let err = ext.validate(&pallet, Origin::Signed(account(2)), fee).unwrap_err();
    assert_eq!(err, custom(5));
}

#[test]
fn unregister_blocked_while_pending_hold_exists() {
    let mut pallet = new_test_ext();
    assert!(register(&mut pallet, Origin::Signed(account(1)), 200, policy(vec![2], 50), &accept)
        .is_ok());

    // Simulate an in-flight tx by moving budget to pending.
    let ext = SponsoredChargeTransactionPayment::new(0, Some(account(1)));
    let _pre = validate_and_prepare(&mut pallet, ext, 2, REMARK_FEE).unwrap();
    assert!(pallet.pending_on_hold(account(1)) > 0);

    let budget_before = pallet.budget_on_hold(account(1));
    assert_eq!(
        unregister(&mut pallet, Origin::Signed(account(1)), &accept),
        Err(DispatchError::Module(Error::PendingBudgetNotEmpty))
    );
    assert!(pallet.sponsor_state(account(1)).is_some());
    assert_eq!(pallet.budget_on_hold(account(1)), budget_before);
    assert_eq!(pallet.pending_on_hold(account(1)), REMARK_FEE);
}

#[test]
fn sponsored_tx_with_tip_splits_correctly() {
    let mut pallet = new_test_ext();
    assert!(register(&mut pallet, Origin::Signed(account(1)), 500, policy(vec![2], 200), &accept)
        .is_ok());

    let tip: Balance = 5;
    let ext = SponsoredChargeTransactionPayment::new(tip, Some(account(1)));

    let pre = validate_and_prepare(&mut pallet, ext, 2, REMARK_FEE + tip).unwrap();

    let outcome = post_dispatch(
        &mut pallet,
        pre,
        REMARK_FEE + tip,
        db(),
        &accept,
    );

    assert_eq!(pallet.pending_on_hold(account(1)), 0);
    // The event should record the tip separately.
    let events: Vec<Balance> = match outcome {
        PostDispatch::Sponsored(settlement) => match settlement.event {
            Event::SponsoredTransactionFeePaid { tip: event_tip, .. } => vec![event_tip],
            _ => vec![],
        },
        PostDispatch::Unsponsored => vec![],
    };
    assert_eq!(events.len(), 1);
    assert_eq!(events[0], tip);
}

#[test]
fn sponsored_path_performs_exactly_its_moves() {
    let mut pallet = new_test_ext();
    // Every balance move the rules ask for is recorded.
    let moves: RefCell<Vec<BalanceMove>> = RefCell::new(Vec::new());
    let record = |m: BalanceMove| -> Verdict {
        moves.borrow_mut().push(m);
        Ok(m.amount())
    };
    assert!(register(&mut pallet, Origin::Signed(account(1)), 200, policy(vec![2], 50), &record)
        .is_ok());
    assert_eq!(
        *moves.borrow(),
        vec![BalanceMove::Hold { reason: HoldReason::SponsorshipBudget, who: account(1), amount: 200 }]
    );
    moves.borrow_mut().clear();

    let ext = SponsoredChargeTransactionPayment::new(1, Some(account(1)));
    let val = ext.validate(&pallet, Origin::Signed(account(2)), REMARK_FEE + 1).unwrap();
    let pre = prepare(ext, &mut pallet, val, &record).unwrap();
    assert_eq!(
        *moves.borrow(),
        vec![
            BalanceMove::Release {
                reason: HoldReason::SponsorshipBudget,
                who: account(1),
                amount: REMARK_FEE + 1,
                precision: Precision::Exact,
            },
            BalanceMove::Hold {
                reason: HoldReason::SponsorshipPending,
                who: account(1),
                amount: REMARK_FEE + 1,
            },
        ]
    );
    moves.borrow_mut().clear();

    // The actual fee is below the estimate: the fee is slashed and the rest goes back to budget.
    post_dispatch(&mut pallet, pre, REMARK_FEE, db(), &record);
    assert_eq!(
        *moves.borrow(),
        vec![
            BalanceMove::Slash { reason: HoldReason::SponsorshipPending, who: account(1), amount: REMARK_FEE },
            BalanceMove::Release {
                reason: HoldReason::SponsorshipPending,
                who: account(1),
                amount: 1,
                precision: Precision::BestEffort,
            },
            BalanceMove::Hold { reason: HoldReason::SponsorshipBudget, who: account(1), amount: 1 },
        ]
    );
    assert_eq!(pallet.budget_on_hold(account(1)), 200 - REMARK_FEE);
    assert_eq!(pallet.pending_on_hold(account(1)), 0);
}
