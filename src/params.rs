//! Initialization parameters of each module, and the presets per cluster.
use crate::ids::AccountId;
use vstd::prelude::*;

verus! {

/// Shares (percent) of the four funds that the treasury split pays.
#[derive(Clone, Copy, Debug, PartialEq, Eq, Structural)]
pub struct DistributionParams {
    pub play_to_earn_fund_share: u8,
    pub staking_fund_share: u8,
    pub company_fund_share: u8,
    pub team_fund_share: u8,
}

/// Ledger parameters: the burn period in seconds.
#[derive(Clone, Copy, Debug, PartialEq, Eq, Structural)]
pub struct GPASSParams {
    pub burn_period: u64,
}

/// Lock vault parameters; periods in seconds, royalties in percent.
#[derive(Clone, Copy, Debug, PartialEq, Eq, Structural)]
pub struct FreezingParams {
    pub reward_period: i64,
    pub royalty: u8,
    pub unfreeze_royalty: u8,
    pub unfreeze_lock_period: i64,
}

/// Stake vault parameters; periods in days, royalties and APRs in percent.
#[derive(Clone, Copy, Debug, PartialEq, Eq, Structural)]
pub struct StakingParams {
    pub epoch_period_days: u16,
    pub min_stake_amount: u64,
    pub hold_period_days: u16,
    pub hold_royalty: u8,
    pub royalty: u8,
    pub apr_start: u8,
    pub apr_step: u8,
    pub apr_end: u8,
}

/// Match session parameters.
#[derive(Clone, Copy, Debug)]
pub struct FightingParams {
    pub validator: AccountId,
    pub afk_timeout: i64,
    pub royalty: u8,
    pub reward_coefficient: u32,
    pub gpass_daily_reward_coefficient: u32,
}

/// Parameters of all modules, as one deployment sets them up.
#[derive(Clone, Copy, Debug)]
pub struct ProgramsParams {
    pub distribution: DistributionParams,
    pub gpass: GPASSParams,
    pub freezing: FreezingParams,
    pub staking: StakingParams,
    pub fighting: FightingParams,
}

/// The clusters a deployment can target.
#[derive(Clone, Copy, Debug, PartialEq, Eq, Structural)]
pub enum Cluster {
    Localnet,
    Devnet,
    Testnet,
    Mainnet,
}

pub const SECONDS_PER_HOUR: i64 = 3600;

pub const SECONDS_PER_DAY: i64 = 86400;

/// The validator that reports finished games on the public clusters.
pub fn default_validator() -> (r: AccountId)
    ensures
        r.bytes@ == seq![
            158u8, 82, 119, 208, 79, 89, 218, 248, 157, 75, 235, 108, 54, 61, 7, 203, 162, 166, 25,
            38, 148, 133, 20, 168, 47, 5, 6, 209, 41, 127, 76, 201,
        ],
{
    let r = AccountId {
        bytes: [
            158, 82, 119, 208, 79, 89, 218, 248, 157, 75, 235, 108, 54, 61, 7, 203, 162, 166, 25, 38,
            148, 133, 20, 168, 47, 5, 6, 209, 41, 127, 76, 201,
        ],
    };
    assert(r.bytes@ =~= seq![
        158u8, 82, 119, 208, 79, 89, 218, 248, 157, 75, 235, 108, 54, 61, 7, 203, 162, 166, 25,
        38, 148, 133, 20, 168, 47, 5, 6, 209, 41, 127, 76, 201,
    ]);
    r
}

impl ProgramsParams {
    /// The preset parameters of a public cluster; none for a local one.
    /// The clusters share the shares, royalties, APRs and session settings
    /// and differ in their periods.
    pub fn get_by_cluster(cluster: Cluster) -> (r: Option<ProgramsParams>)
        ensures
            r is None <==> cluster == Cluster::Localnet,
            r matches Some(p) ==> {
                &&& p.distribution == (DistributionParams {
                    play_to_earn_fund_share: 45,
                    staking_fund_share: 40,
                    company_fund_share: 5,
                    team_fund_share: 10,
                })
                &&& p.freezing.reward_period == (if cluster == Cluster::Mainnet {
                    SECONDS_PER_DAY as int
                } else {
                    6 * SECONDS_PER_HOUR
                })
                &&& p.freezing.royalty == 8
                &&& p.freezing.unfreeze_royalty == 15
                &&& p.staking.min_stake_amount == 3_000_000_000_000
                &&& p.staking.hold_royalty == 15
                &&& p.staking.royalty == 8
                &&& p.staking.apr_start == 45
                &&& p.staking.apr_step == 1
                &&& p.staking.apr_end == 5
                &&& p.fighting.afk_timeout == SECONDS_PER_HOUR
                &&& p.fighting.royalty == 8
                &&& p.fighting.reward_coefficient == 20000
                &&& p.fighting.gpass_daily_reward_coefficient == 10
            },
            cluster == Cluster::Devnet ==> (r matches Some(p) && p.gpass.burn_period == 86400
                && p.freezing.unfreeze_lock_period == SECONDS_PER_DAY && p.staking.epoch_period_days
                == 2 && p.staking.hold_period_days == 1),
            cluster == Cluster::Testnet ==> (r matches Some(p) && p.gpass.burn_period == 86400
                && p.freezing.unfreeze_lock_period == 3 * SECONDS_PER_DAY
                && p.staking.epoch_period_days == 5 && p.staking.hold_period_days == 2),
            cluster == Cluster::Mainnet ==> (r matches Some(p) && p.gpass.burn_period == 30 * 86400
                && p.freezing.unfreeze_lock_period == 15 * SECONDS_PER_DAY
                && p.staking.epoch_period_days == 45 && p.staking.hold_period_days == 30),
    {
        let (burn_period, reward_period, lock_days, epoch_days, hold_days): (u64, i64, i64, u16, u16) =
            match cluster {
            Cluster::Localnet => {
                return None;
            },
            Cluster::Devnet => (86400, 6 * SECONDS_PER_HOUR, 1, 2, 1),
            Cluster::Testnet => (86400, 6 * SECONDS_PER_HOUR, 3, 5, 2),
            Cluster::Mainnet => (30 * 86400, SECONDS_PER_DAY, 15, 45, 30),
        };
        Some(
            ProgramsParams {
                distribution: DistributionParams {
                    play_to_earn_fund_share: 45,
                    staking_fund_share: 40,
                    company_fund_share: 5,
                    team_fund_share: 10,
                },
                gpass: GPASSParams { burn_period },
                freezing: FreezingParams {
                    reward_period,
                    royalty: 8,
                    unfreeze_royalty: 15,
                    unfreeze_lock_period: lock_days * SECONDS_PER_DAY,
                },
                staking: StakingParams {
                    epoch_period_days: epoch_days,
                    min_stake_amount: 3_000_000_000_000,
                    hold_period_days: hold_days,
                    hold_royalty: 15,
                    royalty: 8,
                    apr_start: 45,
                    apr_step: 1,
                    apr_end: 5,
                },
                fighting: FightingParams {
                    validator: default_validator(),
                    afk_timeout: SECONDS_PER_HOUR,
                    royalty: 8,
                    reward_coefficient: 20000,
                    gpass_daily_reward_coefficient: 10,
                },
            },
        )
    }
}

} // verus!
