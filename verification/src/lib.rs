//! A minimal fungible-token ledger: account balances, total supply, spending
//! allowances, and administrative controls (mint authority, a global pause
//! switch, and a per-account blacklist), together with the state-transition
//! rules that keep the ledger internally consistent.
//!
//! Every operation is a guarded atomic transition: it either applies in full,
//! preserving the conservation invariant `total_supply == sum of all
//! balances`, or it rejects with an error and leaves the ledger unchanged.

pub mod account;
pub mod errors;
pub mod events;
pub mod store;
pub mod ledger;
pub mod laws;

pub use account::AccountId;
pub use ledger::SimpleToken;
pub use errors::Error;
pub use events::Approval;
pub use events::Blacklisted;
pub use events::Burned;
pub use events::Minted;
pub use events::Paused;
pub use events::Transfer;
pub use events::Unblacklisted;
pub use events::Unpaused;
