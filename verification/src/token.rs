//! The external value-transfer service, modelled at its interface.

use vstd::prelude::*;

verus! {

use crate::types::AccountId;

/// A token service the ledger moves value through. Implementations live
/// outside the engine (the tests provide an in-memory one). Either call is
/// synchronous and fallible: `false` reports failure, and nothing is assumed
/// about when a call succeeds, so every operation of the ledger is verified
/// against all possible outcomes.
pub trait TokenService {
    /// Pushes `amount` of `token` from the engine's holdings to `to`.
    fn transfer(&mut self, token: AccountId, to: AccountId, amount: u64) -> bool;

    /// Pulls `amount` of `token` from `from` to `to` on the engine's behalf.
    fn transfer_from(&mut self, token: AccountId, from: AccountId, to: AccountId, amount: u64) -> bool;
}

} // verus!
