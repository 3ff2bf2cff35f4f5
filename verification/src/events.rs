use vstd::prelude::*;
use crate::account::AccountId;

verus! {

/// Record of a successful mint: `amount` new tokens credited to `to`.
#[derive(Clone, Copy, Debug, PartialEq, Eq, Structural)]
pub struct Minted {
    /// Account that received the new tokens.
    pub to: AccountId,
    /// Amount of tokens created.
    pub amount: u128,
    /// When the minting happened.
    pub timestamp: u64,
}

/// Record of a successful transfer of `amount` tokens from `from` to `to`.
#[derive(Clone, Copy, Debug, PartialEq, Eq, Structural)]
pub struct Transfer {
    /// Account that sent the tokens.
    pub from: AccountId,
    /// Account that received the tokens.
    pub to: AccountId,
    /// Amount of tokens transferred.
    pub amount: u128,
    /// When the transfer happened.
    pub timestamp: u64,
}

/// Record of a successful burn: `amount` tokens removed from `from`.
#[derive(Clone, Copy, Debug, PartialEq, Eq, Structural)]
pub struct Burned {
    /// Account that burned the tokens.
    pub from: AccountId,
    /// Amount of tokens burned.
    pub amount: u128,
    /// When the burning happened.
    pub timestamp: u64,
}

/// Record of a spending approval: `spender` may move up to `amount` tokens
/// out of `owner`'s balance.
#[derive(Clone, Copy, Debug, PartialEq, Eq, Structural)]
pub struct Approval {
    /// Account that owns the tokens.
    pub owner: AccountId,
    /// Account that may spend the tokens.
    pub spender: AccountId,
    /// Amount approved for spending.
    pub amount: u128,
}

/// Record of the ledger being paused.
#[derive(Clone, Copy, Debug, PartialEq, Eq, Structural)]
pub struct Paused {
    /// Account that paused the ledger.
    pub by: AccountId,
    /// When it was paused.
    pub timestamp: u64,
}

/// Record of the ledger being unpaused.
#[derive(Clone, Copy, Debug, PartialEq, Eq, Structural)]
pub struct Unpaused {
    /// Account that unpaused the ledger.
    pub by: AccountId,
    /// When it was unpaused.
    pub timestamp: u64,
}

/// Record of an account being added to the blacklist.
#[derive(Clone, Copy, Debug, PartialEq, Eq, Structural)]
pub struct Blacklisted {
    /// Account that was blacklisted.
    pub account: AccountId,
    /// Account that did the blacklisting.
    pub by: AccountId,
}

/// Record of an account being removed from the blacklist.
#[derive(Clone, Copy, Debug, PartialEq, Eq, Structural)]
pub struct Unblacklisted {
    /// Account that was removed from the blacklist.
    pub account: AccountId,
    /// Account that did the removal.
    pub by: AccountId,
}

} // verus!
