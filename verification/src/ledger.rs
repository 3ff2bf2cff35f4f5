//! The token ledger state machine.
//!
//! A [`SimpleToken`] owns all token accounting: balances, allowances, the
//! total supply, the administrator identity, the pause switch and the
//! blacklist. Each operation is a guarded atomic transition: it either
//! applies in full and preserves well-formedness, or it rejects with an
//! [`Error`] and leaves the ledger unchanged.

use vstd::prelude::*;
use crate::account::AccountId;
use crate::errors::Error;
use crate::store::allowance_in;
use crate::store::balance_in;
use crate::store::flag_in;
use crate::store::lemma_balance_le_sum;
use crate::store::read_allowance;
use crate::store::read_balance;
use crate::store::read_flag;
use crate::store::sum_amounts;
use crate::store::unique_allowance_keys;
use crate::store::unique_balance_keys;
use crate::store::unique_flag_keys;
use crate::store::write_allowance;
use crate::store::write_balance;
use crate::store::write_flag;

verus! {

/// The ledger: balances, allowances, total supply and policy flags, owned
/// exclusively by one instance and mutated only through its operations.
pub struct SimpleToken {
    /// Administrator of the ledger: may mint and toggle pause/blacklist.
    owner: AccountId,
    /// Account -> balance; an absent account holds zero.
    balances: Vec<(AccountId, u128)>,
    /// Sum of all balances, maintained exactly.
    total_supply: u128,
    /// (owner, spender) -> amount the spender may still withdraw.
    allowances: Vec<((AccountId, AccountId), u128)>,
    /// Global switch that blocks transfer-class operations while set.
    is_paused: bool,
    /// Account -> blocked-from-transfers flag.
    blacklist: Vec<(AccountId, bool)>,
}

impl SimpleToken {
    /// The administrator identity, fixed at construction.
    pub closed spec fn spec_owner(&self) -> AccountId {
        self.owner
    }

    /// The recorded total supply.
    pub closed spec fn spec_total_supply(&self) -> u128 {
        self.total_supply
    }

    /// Whether the ledger is paused.
    pub closed spec fn spec_paused(&self) -> bool {
        self.is_paused
    }

    /// The stored balance entries.
    pub closed spec fn balance_entries(&self) -> Seq<(AccountId, u128)> {
        self.balances@
    }

    /// The stored allowance entries.
    pub closed spec fn allowance_entries(&self) -> Seq<((AccountId, AccountId), u128)> {
        self.allowances@
    }

    /// The stored blacklist entries.
    pub closed spec fn blacklist_entries(&self) -> Seq<(AccountId, bool)> {
        self.blacklist@
    }

    /// The balance of `account`; an account never credited holds zero.
    pub open spec fn spec_balance_of(&self, account: AccountId) -> u128 {
        balance_in(self.balance_entries(), account)
    }

    /// The amount `spender` may still withdraw from `owner`'s balance.
    pub open spec fn spec_allowance(&self, owner: AccountId, spender: AccountId) -> u128 {
        allowance_in(self.allowance_entries(), (owner, spender))
    }

    /// Whether `account` is blacklisted.
    pub open spec fn spec_blacklisted(&self, account: AccountId) -> bool {
        flag_in(self.blacklist_entries(), account)
    }

    /// Well-formedness: every mapping keeps one entry per key, and the
    /// recorded total supply equals the sum of all balances. The
    /// constructor establishes this and every operation preserves it.
    pub open spec fn wf(&self) -> bool {
        &&& unique_balance_keys(self.balance_entries())
        &&& unique_allowance_keys(self.allowance_entries())
        &&& unique_flag_keys(self.blacklist_entries())
        &&& sum_amounts(self.balance_entries()) == self.spec_total_supply() as int
    }
}

/// The outcome `mint` owes for the given ledger and arguments, in the
/// documented precedence order.
pub open spec fn mint_result(pre: SimpleToken, caller: AccountId, amount: u128) -> Result<
    (),
    Error,
> {
    if caller != pre.spec_owner() {
        Err(Error::Unauthorized)
    } else if amount == 0 {
        Err(Error::InvalidAmount)
    } else if pre.spec_total_supply() + amount > u128::MAX {
        Err(Error::Overflow)
    } else {
        Ok(())
    }
}

/// The state change of a successful mint: `amount` is credited to `to` and
/// added to the total supply; everything else is unchanged.
pub open spec fn mint_applied(
    pre: SimpleToken,
    post: SimpleToken,
    to: AccountId,
    amount: u128,
) -> bool {
    &&& post.spec_balance_of(to) == pre.spec_balance_of(to) + amount
    &&& forall|x: AccountId| x != to ==> post.spec_balance_of(x) == pre.spec_balance_of(x)
    &&& post.spec_total_supply() == pre.spec_total_supply() + amount
    &&& post.spec_owner() == pre.spec_owner()
    &&& post.spec_paused() == pre.spec_paused()
    &&& forall|o: AccountId, s: AccountId| post.spec_allowance(o, s) == pre.spec_allowance(o, s)
    &&& forall|x: AccountId| post.spec_blacklisted(x) == pre.spec_blacklisted(x)
}

/// The outcome `transfer` owes, in the documented precedence order. A
/// well-formed ledger never overflows here, so `Overflow` does not occur.
pub open spec fn transfer_result(
    pre: SimpleToken,
    caller: AccountId,
    to: AccountId,
    amount: u128,
) -> Result<(), Error> {
    if pre.spec_paused() {
        Err(Error::ContractPaused)
    } else if pre.spec_blacklisted(caller) || pre.spec_blacklisted(to) {
        Err(Error::AccountBlacklisted)
    } else if amount == 0 {
        Err(Error::InvalidAmount)
    } else if pre.spec_balance_of(caller) < amount {
        Err(Error::InsufficientBalance)
    } else {
        Ok(())
    }
}

/// The state change of a successful transfer: `amount` moves from `from` to
/// `to` (a self-transfer leaves the balance as it was); the total supply and
/// everything else are unchanged.
pub open spec fn transfer_applied(
    pre: SimpleToken,
    post: SimpleToken,
    from: AccountId,
    to: AccountId,
    amount: u128,
) -> bool {
    &&& from != to ==> post.spec_balance_of(from) == pre.spec_balance_of(from) - amount
    &&& from != to ==> post.spec_balance_of(to) == pre.spec_balance_of(to) + amount
    &&& from == to ==> post.spec_balance_of(from) == pre.spec_balance_of(from)
    &&& forall|x: AccountId| x != from && x != to ==> post.spec_balance_of(x)
        == pre.spec_balance_of(x)
    &&& post.spec_total_supply() == pre.spec_total_supply()
    &&& post.spec_owner() == pre.spec_owner()
    &&& post.spec_paused() == pre.spec_paused()
    &&& forall|o: AccountId, s: AccountId| post.spec_allowance(o, s) == pre.spec_allowance(o, s)
    &&& forall|x: AccountId| post.spec_blacklisted(x) == pre.spec_blacklisted(x)
}

/// The outcome `burn` owes, in the documented precedence order.
pub open spec fn burn_result(pre: SimpleToken, caller: AccountId, amount: u128) -> Result<
    (),
    Error,
> {
    if amount == 0 {
        Err(Error::InvalidAmount)
    } else if pre.spec_balance_of(caller) < amount {
        Err(Error::InsufficientBalance)
    } else {
        Ok(())
    }
}

/// The state change of a successful burn: `amount` leaves `from`'s balance
/// and the total supply; everything else is unchanged.
pub open spec fn burn_applied(
    pre: SimpleToken,
    post: SimpleToken,
    from: AccountId,
    amount: u128,
) -> bool {
    &&& post.spec_balance_of(from) == pre.spec_balance_of(from) - amount
    &&& forall|x: AccountId| x != from ==> post.spec_balance_of(x) == pre.spec_balance_of(x)
    &&& post.spec_total_supply() == pre.spec_total_supply() - amount
    &&& post.spec_owner() == pre.spec_owner()
    &&& post.spec_paused() == pre.spec_paused()
    &&& forall|o: AccountId, s: AccountId| post.spec_allowance(o, s) == pre.spec_allowance(o, s)
    &&& forall|x: AccountId| post.spec_blacklisted(x) == pre.spec_blacklisted(x)
}

/// The state change of an approval: the allowance of `(owner, spender)` is
/// set to `amount` outright; everything else is unchanged.
pub open spec fn approve_applied(
    pre: SimpleToken,
    post: SimpleToken,
    owner: AccountId,
    spender: AccountId,
    amount: u128,
) -> bool {
    &&& post.spec_allowance(owner, spender) == amount
    &&& forall|o: AccountId, s: AccountId| (o, s) != (owner, spender)
        ==> post.spec_allowance(o, s) == pre.spec_allowance(o, s)
    &&& forall|x: AccountId| post.spec_balance_of(x) == pre.spec_balance_of(x)
    &&& post.spec_total_supply() == pre.spec_total_supply()
    &&& post.spec_owner() == pre.spec_owner()
    &&& post.spec_paused() == pre.spec_paused()
    &&& forall|x: AccountId| post.spec_blacklisted(x) == pre.spec_blacklisted(x)
}

/// The outcome `transfer_from` owes, in the documented precedence order.
/// The pause and blacklist gates apply to the owner and the recipient; a
/// well-formed ledger never overflows here.
pub open spec fn transfer_from_result(
    pre: SimpleToken,
    spender: AccountId,
    owner: AccountId,
    to: AccountId,
    amount: u128,
) -> Result<(), Error> {
    if pre.spec_paused() {
        Err(Error::ContractPaused)
    } else if pre.spec_blacklisted(owner) || pre.spec_blacklisted(to) {
        Err(Error::AccountBlacklisted)
    } else if amount == 0 {
        Err(Error::InvalidAmount)
    } else if pre.spec_allowance(owner, spender) < amount {
        Err(Error::InsufficientAllowance)
    } else if pre.spec_balance_of(owner) < amount {
        Err(Error::InsufficientBalance)
    } else {
        Ok(())
    }
}

/// The state change of a successful allowance-based spend: the balances move
/// as in a transfer from `owner` to `to`, and the allowance of
/// `(owner, spender)` drops by exactly `amount`.
pub open spec fn transfer_from_applied(
    pre: SimpleToken,
    post: SimpleToken,
    spender: AccountId,
    owner: AccountId,
    to: AccountId,
    amount: u128,
) -> bool {
    &&& owner != to ==> post.spec_balance_of(owner) == pre.spec_balance_of(owner) - amount
    &&& owner != to ==> post.spec_balance_of(to) == pre.spec_balance_of(to) + amount
    &&& owner == to ==> post.spec_balance_of(owner) == pre.spec_balance_of(owner)
    &&& forall|x: AccountId| x != owner && x != to ==> post.spec_balance_of(x)
        == pre.spec_balance_of(x)
    &&& post.spec_allowance(owner, spender) == pre.spec_allowance(owner, spender) - amount
    &&& forall|o: AccountId, s: AccountId| (o, s) != (owner, spender)
        ==> post.spec_allowance(o, s) == pre.spec_allowance(o, s)
    &&& post.spec_total_supply() == pre.spec_total_supply()
    &&& post.spec_owner() == pre.spec_owner()
    &&& post.spec_paused() == pre.spec_paused()
    &&& forall|x: AccountId| post.spec_blacklisted(x) == pre.spec_blacklisted(x)
}

/// The outcome an administrator-only flag flip owes.
pub open spec fn admin_result(pre: SimpleToken, caller: AccountId) -> Result<(), Error> {
    if caller != pre.spec_owner() {
        Err(Error::Unauthorized)
    } else {
        Ok(())
    }
}

/// The state change of a successful `blacklist` call: the flag of `account`
/// becomes `value`; everything else is unchanged.
pub open spec fn blacklist_applied(
    pre: SimpleToken,
    post: SimpleToken,
    account: AccountId,
    value: bool,
) -> bool {
    &&& post.spec_blacklisted(account) == value
    &&& forall|x: AccountId| x != account ==> post.spec_blacklisted(x) == pre.spec_blacklisted(x)
    &&& forall|x: AccountId| post.spec_balance_of(x) == pre.spec_balance_of(x)
    &&& forall|o: AccountId, s: AccountId| post.spec_allowance(o, s) == pre.spec_allowance(o, s)
    &&& post.spec_total_supply() == pre.spec_total_supply()
    &&& post.spec_owner() == pre.spec_owner()
    &&& post.spec_paused() == pre.spec_paused()
}

impl SimpleToken {
    /// Create an empty ledger whose administrator is `creator`: no balances,
    /// no allowances, nothing blacklisted, not paused, zero supply.
    pub fn new(creator: AccountId) -> (ledger: SimpleToken)
        ensures
            ledger.wf(),
            ledger.spec_owner() == creator,
            ledger.spec_total_supply() == 0,
            !ledger.spec_paused(),
            forall|a: AccountId| ledger.spec_balance_of(a) == 0,
            forall|o: AccountId, s: AccountId| ledger.spec_allowance(o, s) == 0,
            forall|a: AccountId| !ledger.spec_blacklisted(a),
    {
        let ledger = SimpleToken {
            owner: creator,
            balances: Vec::new(),
            total_supply: 0,
            allowances: Vec::new(),
            is_paused: false,
            blacklist: Vec::new(),
        };
        ledger
    }

    /// Whether `account` is blocked from sending or receiving transfers.
    fn check_blacklisted(&self, account: AccountId) -> (r: bool)
        ensures
            r == self.spec_blacklisted(account),
    {
        read_flag(&self.blacklist, account)
    }

    /// Mint `amount` new tokens to `to`. Only the administrator may mint;
    /// the amount must be non-zero and must not push the total supply past
    /// the representable range.
    pub fn mint(&mut self, caller: AccountId, to: AccountId, amount: u128) -> (r: Result<
        (),
        Error,
    >)
        requires
            old(self).wf(),
        ensures
            final(self).wf(),
            r == mint_result(*old(self), caller, amount),
            r.is_ok() ==> mint_applied(*old(self), *final(self), to, amount),
            r.is_err() ==> *final(self) == *old(self),
    {
        if caller != self.owner {
            return Err(Error::Unauthorized);
        }
        if amount == 0 {
            return Err(Error::InvalidAmount);
        }
        if amount > u128::MAX - self.total_supply {
            return Err(Error::Overflow);
        }
        let current = read_balance(&self.balances, to);
        proof {
            lemma_balance_le_sum(self.balances@, to);
        }
        write_balance(&mut self.balances, to, current + amount);
        self.total_supply = self.total_supply + amount;
        Ok(())
    }

    /// The balance of `account`; an account never credited holds zero.
    pub fn balance_of(&self, account: AccountId) -> (amount: u128)
        ensures
            amount == self.spec_balance_of(account),
    {
        read_balance(&self.balances, account)
    }

    /// Move `amount` tokens from `caller` to `to`. Rejected while the
    /// ledger is paused, while either side is blacklisted, for a zero
    /// amount, and when the caller's balance does not cover the amount.
    pub fn transfer(&mut self, caller: AccountId, to: AccountId, amount: u128) -> (r: Result<
        (),
        Error,
    >)
        requires
            old(self).wf(),
        ensures
            final(self).wf(),
            r == transfer_result(*old(self), caller, to, amount),
            r.is_ok() ==> transfer_applied(*old(self), *final(self), caller, to, amount),
            r.is_err() ==> *final(self) == *old(self),
    {
        if self.is_paused {
            return Err(Error::ContractPaused);
        }
        if self.check_blacklisted(caller) || self.check_blacklisted(to) {
            return Err(Error::AccountBlacklisted);
        }
        if amount == 0 {
            return Err(Error::InvalidAmount);
        }
        let from_balance = read_balance(&self.balances, caller);
        if from_balance < amount {
            return Err(Error::InsufficientBalance);
        }
        write_balance(&mut self.balances, caller, from_balance - amount);
        let to_balance = read_balance(&self.balances, to);
        proof {
            lemma_balance_le_sum(self.balances@, to);
        }
        write_balance(&mut self.balances, to, to_balance + amount);
        Ok(())
    }

    /// Burn `amount` tokens out of `caller`'s balance, shrinking the total
    /// supply by the same amount.
    pub fn burn(&mut self, caller: AccountId, amount: u128) -> (r: Result<(), Error>)
        requires
            old(self).wf(),
        ensures
            final(self).wf(),
            r == burn_result(*old(self), caller, amount),
            r.is_ok() ==> burn_applied(*old(self), *final(self), caller, amount),
            r.is_err() ==> *final(self) == *old(self),
    {
        if amount == 0 {
            return Err(Error::InvalidAmount);
        }
        let balance = read_balance(&self.balances, caller);
        if balance < amount {
            return Err(Error::InsufficientBalance);
        }
        proof {
            lemma_balance_le_sum(self.balances@, caller);
        }
        write_balance(&mut self.balances, caller, balance - amount);
        self.total_supply = self.total_supply - amount;
        Ok(())
    }

    /// Let `spender` withdraw up to `amount` from `caller`'s balance. The
    /// allowance is set outright: re-approving overwrites, and sufficiency
    /// is only checked at spend time.
    pub fn approve(&mut self, caller: AccountId, spender: AccountId, amount: u128) -> (r: Result<
        (),
        Error,
    >)
        requires
            old(self).wf(),
        ensures
            final(self).wf(),
            r == Ok::<(), Error>(()),
            approve_applied(*old(self), *final(self), caller, spender, amount),
    {
        write_allowance(&mut self.allowances, (caller, spender), amount);
        Ok(())
    }

    /// Spend `amount` of `owner`'s balance on their behalf, moving it to
    /// `to`. Gated like a transfer (pause, blacklist of owner and
    /// recipient, non-zero amount), and additionally by the allowance the
    /// owner granted `caller`.
    pub fn transfer_from(
        &mut self,
        caller: AccountId,
        owner: AccountId,
        to: AccountId,
        amount: u128,
    ) -> (r: Result<(), Error>)
        requires
            old(self).wf(),
        ensures
            final(self).wf(),
            r == transfer_from_result(*old(self), caller, owner, to, amount),
            r.is_ok() ==> transfer_from_applied(*old(self), *final(self), caller, owner, to, amount),
            r.is_err() ==> *final(self) == *old(self),
    {
        if self.is_paused {
            return Err(Error::ContractPaused);
        }
        if self.check_blacklisted(owner) || self.check_blacklisted(to) {
            return Err(Error::AccountBlacklisted);
        }
        if amount == 0 {
            return Err(Error::InvalidAmount);
        }
        let allowed = read_allowance(&self.allowances, (owner, caller));
        if allowed < amount {
            return Err(Error::InsufficientAllowance);
        }
        let owner_balance = read_balance(&self.balances, owner);
        if owner_balance < amount {
            return Err(Error::InsufficientBalance);
        }
        write_allowance(&mut self.allowances, (owner, caller), allowed - amount);
        write_balance(&mut self.balances, owner, owner_balance - amount);
        let to_balance = read_balance(&self.balances, to);
        proof {
            lemma_balance_le_sum(self.balances@, to);
        }
        write_balance(&mut self.balances, to, to_balance + amount);
        Ok(())
    }

    /// Set or clear the global pause switch. Administrator only.
    pub fn set_paused(&mut self, caller: AccountId, value: bool) -> (r: Result<(), Error>)
        requires
            old(self).wf(),
        ensures
            final(self).wf(),
            r == admin_result(*old(self), caller),
            r.is_ok() ==> final(self).spec_paused() == value,
            r.is_ok() ==> forall|x: AccountId| final(self).spec_balance_of(x) == old(
                self,
            ).spec_balance_of(x),
            r.is_ok() ==> forall|o: AccountId, s: AccountId| final(self).spec_allowance(o, s)
                == old(self).spec_allowance(o, s),
            r.is_ok() ==> forall|x: AccountId| final(self).spec_blacklisted(x) == old(
                self,
            ).spec_blacklisted(x),
            r.is_ok() ==> final(self).spec_total_supply() == old(self).spec_total_supply(),
            r.is_ok() ==> final(self).spec_owner() == old(self).spec_owner(),
            r.is_err() ==> *final(self) == *old(self),
    {
        if caller != self.owner {
            return Err(Error::Unauthorized);
        }
        self.is_paused = value;
        Ok(())
    }

    /// Add `account` to, or remove it from, the blacklist. Administrator
    /// only.
    pub fn blacklist(&mut self, caller: AccountId, account: AccountId, value: bool) -> (r: Result<
        (),
        Error,
    >)
        requires
            old(self).wf(),
        ensures
            final(self).wf(),
            r == admin_result(*old(self), caller),
            r.is_ok() ==> blacklist_applied(*old(self), *final(self), account, value),
            r.is_err() ==> *final(self) == *old(self),
    {
        if caller != self.owner {
            return Err(Error::Unauthorized);
        }
        write_flag(&mut self.blacklist, account, value);
        Ok(())
    }

    /// The total number of tokens in circulation.
    pub fn total_supply(&self) -> (supply: u128)
        ensures
            supply == self.spec_total_supply(),
    {
        self.total_supply
    }

    /// The administrator of the ledger.
    pub fn get_owner(&self) -> (owner: AccountId)
        ensures
            owner == self.spec_owner(),
    {
        self.owner
    }
}

} // verus!
