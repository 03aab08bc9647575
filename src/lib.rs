//! Token-economy accounting engine: a credit ledger with lazy expiry, a lock
//! vault with tiered rewards, a stake vault with epoch-decayed compounding,
//! a treasury split, a capability-gated reward fund and a match-session state
//! machine. Every entry point is a function from the module's state (and the
//! current time) to its next state plus the token movements the host must
//! carry out.
//!
//! Every entry point either succeeds or fails with its state untouched.
//! A request whose time window has not yet elapsed (a credit expiry sweep,
//! an accrual collection) is refused with an error of class `NotYetDue`,
//! never answered by a silent success.

pub mod ids;
pub mod percent;
pub mod token;
pub mod error;
pub mod gpass;
pub mod params;
pub mod freezing;
pub mod staking;
pub mod distribution;
pub mod reward_distribution;
pub mod fighting;
pub mod config;
