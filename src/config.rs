//! Client configuration: where the fee payer's key lives, which network to
//! talk to, and the program id of each module.
use vstd::prelude::*;

verus! {

/// Program id of each module, as text.
#[derive(Clone, Debug, PartialEq, Eq)]
pub struct Programs {
    pub gpass: String,
    pub freezing: String,
    pub staking: String,
    pub distribution: String,
    pub reward_distribution: String,
    pub fighting: String,
}

/// Client configuration.
#[derive(Clone, Debug, PartialEq, Eq)]
pub struct CLIConfig {
    pub fee_payer_path: String,
    pub network: String,
    pub programs: Programs,
}

} // verus!
