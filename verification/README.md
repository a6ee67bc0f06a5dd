# pallet-sponsored-tx

Sponsored native fee payment for a FRAME runtime, with its rules verified in Verus.

A sponsor registers a policy (an allowlist of callers and a per-transaction fee cap) and escrows
native balance as a hold on their own account. An allowlisted signer names the sponsor in the
payment transaction extension, and the sponsor pays the fee instead of the signer. Two hold
reasons keep the available budget (`SponsorshipBudget`) apart from the worst-case fee reserved
for an in-flight transaction (`SponsorshipPending`).

Accounts are the runtime's 32-byte account identifiers, held by the rules as four 64-bit words;
balances are `u128`.

## Layout

- `src/types.rs`: account, balance, policy, state, origin, error and event types.
- `src/holds.rs`: the held amounts under the two hold reasons, the balance moves (hold, release,
  slash) the rules ask the balances pallet for, and what each move does to the amounts given the
  balances pallet's verdict on it.
- `src/pallet.rs`: the sponsor registry and the lifecycle calls (`register_sponsor`,
  `increase_budget`, `decrease_budget`, `set_policy`, `pause`, `resume`, `unregister`), and the
  budget/pending moves used by the payment extension. A call that moves funds comes in two
  parts: a `..._move` function names the next balance move given the verdicts on the moves made
  so far (and names none once all are made), and the call itself takes those verdicts and
  applies them. The contracts fix each move exactly, so a caller that performs the moves named,
  and only those, performs exactly the moves the call's specification lists.
- `src/extension.rs`: the payment extension's `validate`, `prepare` and post-dispatch settlement.
- `src/weights.rs`, `src/benchmarking.rs`: call weights and benchmark balances.
- `src/laws.rs`: properties spanning several calls, proved over the calls' specifications.
- `app/`: the FRAME side: storage, dispatchables, events, errors, the `WeightInfo` config and the
  `TransactionExtension` impl. It performs exactly the moves the rules name with the balances
  pallet, hands back the verdicts, and routes the slashed fee credit.
