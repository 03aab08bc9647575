//! The engine-wide classification of errors.
use vstd::prelude::*;

verus! {

/// Every module's error belongs to one of these classes.
#[derive(Clone, Copy, Debug, PartialEq, Eq, Structural)]
pub enum ErrorKind {
    /// Wrong admin, update authority, minter or burner.
    AccessDenied,
    /// Caller absent from a gate's allow-list.
    CapabilityDenied,
    /// A parameter out of its allowed range.
    InvalidParameter,
    /// A checked arithmetic step failed.
    Overflow,
    /// The operation does not fit the current state.
    StateConflict,
    /// Accrual or expiry requested before its window elapsed.
    NotYetDue,
}

} // verus!
