use crate::identity::Identity;
use vstd::prelude::*;

verus! {

/// A request to move `amount` units from the account `from` to the account
/// `to`, authorised by `authority`. The ledger only states the request; the
/// host carries it out and aborts the whole operation if it fails.
#[derive(Clone, Copy, Debug, PartialEq, Eq)]
pub struct Transfer {
    pub from: Identity,
    pub to: Identity,
    pub authority: Identity,
    pub amount: u64,
}

/// A request to issue `amount` new units of `mint` to the account `to`,
/// authorised by `authority`.
#[derive(Clone, Copy, Debug, PartialEq, Eq)]
pub struct MintTo {
    pub mint: Identity,
    pub to: Identity,
    pub authority: Identity,
    pub amount: u64,
}

} // verus!
