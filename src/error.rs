use vstd::prelude::*;

verus! {

/// Why a token-economy handler rejected a call. A rejected call changes no record.
#[derive(Clone, Copy, Debug, PartialEq, Eq, Structural)]
pub enum SocraticError {
    /// The ledger balance is below the cost of the action.
    InsufficientTokens,
    /// The caller does not own the document it tried to change.
    NotDocumentOwner,
    /// The amount to stake is below the minimum stake.
    InsufficientStakeAmount,
    /// The stake's cooldown period has not yet elapsed.
    StakeCooldownActive,
    /// The caller does not own the stake it tried to withdraw.
    NotStakeOwner,
    /// The stake was already withdrawn.
    StakeNotActive,
    /// The access level is none of private, shared or public.
    InvalidAccessLevel,
    /// A ledger for this wallet already exists.
    AlreadyInitialized,
    /// A balance or a counter would exceed its range.
    Overflow,
}

/// The result a handler returns when its precondition check gave `e`.
pub open spec fn outcome(e: Option<SocraticError>) -> Result<(), SocraticError> {
    match e {
        Some(err) => Err(err),
        None => Ok(()),
    }
}

} // verus!
