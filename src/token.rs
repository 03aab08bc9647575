//! Token movements that an entry point asks the host to carry out.
use crate::ids::AccountId;
use vstd::prelude::*;

verus! {

/// Move `amount` base units from the token account `from` to `to`, signed
/// by `authority` (the owner of `from`).
#[derive(Clone, Copy, Debug, PartialEq, Eq)]
pub struct Transfer {
    pub from: AccountId,
    pub to: AccountId,
    pub authority: AccountId,
    pub amount: u64,
}

impl Transfer {
    pub fn new(from: AccountId, to: AccountId, authority: AccountId, amount: u64) -> (r: Transfer)
        ensures
            r == (Transfer { from, to, authority, amount }),
    {
        Transfer { from, to, authority, amount }
    }
}

} // verus!
