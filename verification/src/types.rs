//! Shared sponsor policy, state, origin, error and event types.
use vstd::prelude::*;

verus! {

/// An account: the 32 bytes that identify it on chain, held as four 64-bit words in order.
pub type AccountId = (u64, u64, u64, u64);

/// Native balance type used by the pallet.
pub type Balance = u128;

/// The balances pallet's verdict on one balance move: the amount it reports having moved (for a
/// release, the amount it returned to the free balance), or why it refused the move.
pub type Verdict = Result<Balance, BalancesError>;

/// Whether two accounts are the same account.
pub fn same_account(a: AccountId, b: AccountId) -> (same: bool)
    ensures
        same == (a == b),
{
    a.0 == b.0 && a.1 == b.1 && a.2 == b.2 && a.3 == b.3
}

/// The origin a dispatchable or a transaction is submitted with.
#[derive(Clone, Copy, PartialEq, Eq, Debug)]
pub enum Origin {
    /// The root origin.
    Root,
    /// A standard signed origin.
    Signed(AccountId),
    /// An unsigned origin.
    Unsigned,
}

/// The signer of a signed origin; any other origin is refused.
pub open spec fn spec_ensure_signed(origin: Origin) -> Result<AccountId, DispatchError> {
    match origin {
        Origin::Signed(who) => Ok(who),
        _ => Err(DispatchError::BadOrigin),
    }
}

/// Returns the signer of a signed origin, and `BadOrigin` for any other origin.
pub fn ensure_signed(origin: Origin) -> (r: Result<AccountId, DispatchError>)
    ensures
        r == spec_ensure_signed(origin),
{
    match origin {
        Origin::Signed(who) => Ok(who),
        _ => Err(DispatchError::BadOrigin),
    }
}

/// Hold reasons used to separate available sponsor budget from in-flight reservations.
#[derive(Clone, Copy, PartialEq, Eq, Structural, Debug)]
pub enum HoldReason {
    /// Available sponsor budget held on the sponsor account.
    SponsorshipBudget,
    /// Worst-case fee reserved for an in-flight sponsored transaction.
    SponsorshipPending,
}

/// Policy configured by a sponsor.
#[derive(Clone, Debug)]
pub struct SponsorPolicy {
    /// Accounts allowed to submit transactions against this sponsor.
    pub allowed_callers: Vec<AccountId>,
    /// Maximum fee, including tip, that the sponsor is willing to pay per transaction.
    pub max_fee_per_tx: Balance,
}

/// Current on-chain state for a sponsor.
#[derive(Clone, Debug)]
pub struct SponsorState {
    /// Whether the sponsor currently accepts sponsored transactions.
    pub active: bool,
    /// The sponsor policy applied during sponsored validation.
    pub policy: SponsorPolicy,
}

/// Errors of the pallet's own rules.
#[derive(Clone, Copy, PartialEq, Eq, Structural, Debug)]
pub enum Error {
    /// The caller is already registered as a sponsor.
    AlreadyRegistered,
    /// The caller is not registered as a sponsor.
    NotRegistered,
    /// The sponsor is already paused.
    AlreadyPaused,
    /// The sponsor is already active.
    AlreadyActive,
    /// A sponsor policy must contain at least one approved caller.
    EmptyAllowlist,
    /// A sponsor policy cannot contain duplicate approved callers.
    DuplicateAllowedCaller,
    /// Budget-changing operations require a non-zero amount.
    ZeroBudget,
    /// The available budget hold is smaller than the requested amount.
    InsufficientAvailableBudget,
    /// Pending funds must be fully settled before a sponsor can unregister.
    PendingBudgetNotEmpty,
}

/// Failures reported by the balances pallet when it moves funds on or off hold.
#[derive(Clone, Copy, PartialEq, Eq, Structural, Debug)]
pub enum BalancesError {
    /// The account has too few funds for the operation.
    FundsUnavailable,
    /// The funds could not be deposited back into the account.
    CannotCreate,
    /// No further hold can be placed on the account.
    CannotCreateHold,
    /// The operation would bring the account below the existential deposit.
    BelowMinimum,
    /// The funds are frozen.
    Frozen,
    /// An arithmetic overflow.
    Overflow,
    /// An arithmetic underflow.
    Underflow,
    /// Any other failure.
    Other,
}

/// Why a dispatchable failed.
#[derive(Clone, Copy, PartialEq, Eq, Structural, Debug)]
pub enum DispatchError {
    /// The origin is not a signed account.
    BadOrigin,
    /// One of the pallet's own rules refused the call.
    Module(Error),
    /// The balances pallet refused to move the funds.
    Balances(BalancesError),
}

/// Events deposited by the pallet.
#[derive(Clone, Copy, PartialEq, Eq, Debug)]
pub enum Event {
    /// A sponsor has been registered and the initial budget was placed on hold.
    SponsorRegistered { sponsor: AccountId, initial_budget: Balance },
    /// A sponsor increased their available held budget.
    BudgetIncreased { sponsor: AccountId, amount: Balance, new_budget: Balance },
    /// A sponsor decreased their available held budget.
    BudgetDecreased { sponsor: AccountId, amount: Balance, new_budget: Balance },
    /// A sponsor replaced their policy.
    SponsorPolicyUpdated { sponsor: AccountId },
    /// A sponsor has been paused and can no longer sponsor transactions.
    SponsorPaused { sponsor: AccountId },
    /// A sponsor has been resumed and may sponsor transactions again.
    SponsorResumed { sponsor: AccountId },
    /// A sponsor has been removed and any remaining budget released.
    SponsorUnregistered { sponsor: AccountId },
    /// A sponsored transaction settled fees against the sponsor instead of the signer.
    SponsoredTransactionFeePaid {
        sponsor: AccountId,
        signer: AccountId,
        actual_fee: Balance,
        tip: Balance,
    },
}

} // verus!
