use vstd::prelude::*;

verus! {

/// An opaque participant identity.
///
/// The ledger assumes nothing about an account beyond equality: it is a
/// comparable token handed in by the host that authenticated the caller.
#[derive(Clone, Copy, Debug, Hash, PartialEq, Eq, Structural)]
pub struct AccountId(pub u128);

} // verus!
