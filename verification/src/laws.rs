//! Ledger-wide laws, stated and proved over the public model.
//!
//! The constructor establishes `SimpleToken::wf` and every operation both
//! requires and re-establishes it, so each lemma below that assumes `wf`
//! holds of every reachable ledger state.

use vstd::prelude::*;
use crate::account::AccountId;
use crate::errors::Error;
use crate::ledger::SimpleToken;
use crate::ledger::burn_applied;
use crate::ledger::mint_applied;
use crate::ledger::mint_result;
use crate::ledger::transfer_from_result;
use crate::ledger::transfer_result;
use crate::store::sum_amounts;

verus! {

/// Conservation: in every well-formed (hence every reachable) ledger state,
/// the total supply equals the sum of all stored balances.
pub proof fn lemma_total_supply_is_sum_of_balances(ledger: SimpleToken)
    requires
        ledger.wf(),
    ensures
        ledger.spec_total_supply() as int == sum_amounts(ledger.balance_entries()),
{
}

/// Range safety: in every well-formed ledger state, no stored balance or
/// allowance exceeds the maximum representable value, and none is negative.
pub proof fn lemma_stored_amounts_bounded(ledger: SimpleToken)
    requires
        ledger.wf(),
    ensures
        forall|i: int| 0 <= i < ledger.balance_entries().len() ==> 0 <= (
        #[trigger] ledger.balance_entries()[i]).1 <= u128::MAX,
        forall|i: int| 0 <= i < ledger.allowance_entries().len() ==> 0 <= (
        #[trigger] ledger.allowance_entries()[i]).1 <= u128::MAX,
        forall|a: AccountId| 0 <= #[trigger] ledger.spec_balance_of(a) <= u128::MAX,
        forall|o: AccountId, s: AccountId| 0 <= #[trigger] ledger.spec_allowance(o, s)
            <= u128::MAX,
{
}

/// Authorization: minting by anyone other than the administrator is
/// rejected as `Unauthorized`, whatever the amount; since every rejected
/// operation leaves the ledger unchanged, the total supply is untouched.
pub proof fn lemma_mint_requires_administrator(
    ledger: SimpleToken,
    caller: AccountId,
    amount: u128,
)
    requires
        caller != ledger.spec_owner(),
    ensures
        mint_result(ledger, caller, amount) == Err::<(), Error>(Error::Unauthorized),
{
}

/// A zero-amount transfer is rejected as `InvalidAmount` regardless of the
/// balances involved. (The pause and blacklist gates take precedence, so
/// they are assumed clear here.)
pub proof fn lemma_zero_amount_transfer_rejected(
    ledger: SimpleToken,
    caller: AccountId,
    to: AccountId,
)
    requires
        !ledger.spec_paused(),
        !ledger.spec_blacklisted(caller),
        !ledger.spec_blacklisted(to),
    ensures
        transfer_result(ledger, caller, to, 0) == Err::<(), Error>(Error::InvalidAmount),
{
}

/// While the ledger is paused, every transfer-class call is rejected as
/// `ContractPaused`, whatever its arguments.
pub proof fn lemma_pause_blocks_transfers(
    ledger: SimpleToken,
    caller: AccountId,
    owner: AccountId,
    to: AccountId,
    amount: u128,
)
    requires
        ledger.spec_paused(),
    ensures
        transfer_result(ledger, caller, to, amount) == Err::<(), Error>(Error::ContractPaused),
        transfer_from_result(ledger, caller, owner, to, amount) == Err::<(), Error>(
            Error::ContractPaused,
        ),
{
}

/// Minting does not consult the pause switch: two ledgers that agree on the
/// administrator and the total supply owe the same mint outcome, whatever
/// their pause flags. In particular the administrator can mint while the
/// ledger is paused.
pub proof fn lemma_mint_ignores_pause(
    paused: SimpleToken,
    unpaused: SimpleToken,
    caller: AccountId,
    amount: u128,
)
    requires
        paused.spec_owner() == unpaused.spec_owner(),
        paused.spec_total_supply() == unpaused.spec_total_supply(),
    ensures
        mint_result(paused, caller, amount) == mint_result(unpaused, caller, amount),
{
}

/// A blacklisted account can neither send nor receive: a transfer whose
/// sender or recipient is blacklisted is rejected as `AccountBlacklisted`.
/// (The pause gate takes precedence, so it is assumed clear here.)
pub proof fn lemma_blacklist_blocks_transfer(
    ledger: SimpleToken,
    caller: AccountId,
    to: AccountId,
    amount: u128,
)
    requires
        !ledger.spec_paused(),
        ledger.spec_blacklisted(caller) || ledger.spec_blacklisted(to),
    ensures
        transfer_result(ledger, caller, to, amount) == Err::<(), Error>(Error::AccountBlacklisted),
{
}

/// An allowance-based spend beyond the granted allowance is rejected as
/// `InsufficientAllowance`. (The pause, blacklist and zero-amount gates
/// take precedence, so they are assumed clear here.)
pub proof fn lemma_insufficient_allowance_rejected(
    ledger: SimpleToken,
    spender: AccountId,
    owner: AccountId,
    to: AccountId,
    amount: u128,
)
    requires
        !ledger.spec_paused(),
        !ledger.spec_blacklisted(owner),
        !ledger.spec_blacklisted(to),
        amount != 0,
        ledger.spec_allowance(owner, spender) < amount,
    ensures
        transfer_from_result(ledger, spender, owner, to, amount) == Err::<(), Error>(
            Error::InsufficientAllowance,
        ),
{
}

/// Round trip: minting an amount to an account and then burning the same
/// amount from it returns the total supply and every balance to their prior
/// values.
pub proof fn lemma_mint_burn_round_trip(
    before: SimpleToken,
    after_mint: SimpleToken,
    after_burn: SimpleToken,
    to: AccountId,
    amount: u128,
)
    requires
        mint_applied(before, after_mint, to, amount),
        burn_applied(after_mint, after_burn, to, amount),
    ensures
        after_burn.spec_total_supply() == before.spec_total_supply(),
        after_burn.spec_balance_of(to) == before.spec_balance_of(to),
        forall|x: AccountId| after_burn.spec_balance_of(x) == before.spec_balance_of(x),
{
    assert forall|x: AccountId| after_burn.spec_balance_of(x) == before.spec_balance_of(x) by {
        if x != to {
            assert(after_mint.spec_balance_of(x) == before.spec_balance_of(x));
        }
    }
}

} // verus!
