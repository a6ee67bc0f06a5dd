//! Balances used to set up the pallet's benchmarks.
//!
//! Benchmarks hold balances that must stay valid on runtimes with a large existential deposit,
//! so every amount is a multiple of the smallest balance an account may keep.
use crate::types::Balance;
use vstd::prelude::*;

verus! {

/// Multiplication of balances that stops at `u128::MAX`.
pub open spec fn sat_mul_balance(a: Balance, b: Balance) -> Balance {
    if a * b > u128::MAX {
        u128::MAX
    } else {
        (a * b) as u128
    }
}

/// The smallest balance worth holding: the existential deposit, and at least one.
pub fn minimum_balance(existential_deposit: Balance) -> (amount: Balance)
    ensures
        amount == if existential_deposit >= 1 {
            existential_deposit
        } else {
            1
        },
{
    if existential_deposit >= 1 {
        existential_deposit
    } else {
        1
    }
}

fn saturating_times(amount: Balance, factor: Balance) -> (product: Balance)
    ensures
        product == sat_mul_balance(amount, factor),
{
    match amount.checked_mul(factor) {
        Some(product) => product,
        None => u128::MAX,
    }
}

/// The budget a benchmark sponsor registers with: ten minimum balances.
pub fn default_initial_budget(existential_deposit: Balance) -> (amount: Balance)
    ensures
        amount == sat_mul_balance(
            if existential_deposit >= 1 {
                existential_deposit
            } else {
                1
            },
            10,
        ),
{
    saturating_times(minimum_balance(existential_deposit), 10)
}

/// The amount a benchmark moves the budget by: two minimum balances.
pub fn default_budget_delta(existential_deposit: Balance) -> (amount: Balance)
    ensures
        amount == sat_mul_balance(
            if existential_deposit >= 1 {
                existential_deposit
            } else {
                1
            },
            2,
        ),
{
    saturating_times(minimum_balance(existential_deposit), 2)
}

/// The balance a benchmark account is funded with: ten initial budgets.
pub fn setup_balance(existential_deposit: Balance) -> (amount: Balance)
    ensures
        amount == sat_mul_balance(
            sat_mul_balance(
                if existential_deposit >= 1 {
                    existential_deposit
                } else {
                    1
                },
                10,
            ),
            10,
        ),
{
    saturating_times(default_initial_budget(existential_deposit), 10)
}

} // verus!
