//! Lock vault: users lock the base token for an immediate tiered credit
//! reward plus a periodic credit accrual, and unlock it later, paying an
//! early-exit royalty before the lock period has passed.
use crate::error::ErrorKind;
use crate::gpass::{mint_spec, mint_to, GpassError, GpassSettings, Wallet};
use crate::ids::{authority_of, derive_authority, AccountId};
use crate::params::FreezingParams;
use crate::percent::{calc_royalty_amount, percent_of};
use crate::token::Transfer;
use vstd::prelude::*;
use vstd::string::StringSliceAdditionalSpecFns;

verus! {

pub const MAX_REWARDS_TABLE_ROWS: usize = 5;

pub const GPASS_MINT_AUTH_SEED: &'static str = "gpass_mint_auth";

pub const TREASURY_AUTH_SEED: &'static str = "treasury_auth";

#[derive(Clone, Copy, Debug, PartialEq, Eq, Structural)]
pub enum FreezingError {
    AccessDenied,
    Overflow,
    InvalidGPASSMintAuth,
    InvalidTreasuryOwner,
    InvalidRoyaltyValue,
    InvalidUnfreezeRoyaltyValue,
    InvalidUnfreezeLockPeriod,
    InvalidRewardTable,
    InvalidRewardPeriod,
    ZeroFreezingAmount,
    ZeroUnfreezingAmount,
    AdditionalFreezingNotAvailable,
    ZeroGpassEarned,
    Gpass(GpassError),
}

impl FreezingError {
    pub open spec fn spec_kind(self) -> ErrorKind {
        match self {
            FreezingError::AccessDenied => ErrorKind::AccessDenied,
            FreezingError::Overflow => ErrorKind::Overflow,
            FreezingError::ZeroFreezingAmount => ErrorKind::StateConflict,
            FreezingError::ZeroUnfreezingAmount => ErrorKind::StateConflict,
            FreezingError::AdditionalFreezingNotAvailable => ErrorKind::StateConflict,
            FreezingError::ZeroGpassEarned => ErrorKind::NotYetDue,
            FreezingError::Gpass(e) => e.spec_kind(),
            _ => ErrorKind::InvalidParameter,
        }
    }

    /// The class of this error in the engine-wide taxonomy.
    pub fn kind(&self) -> (r: ErrorKind)
        ensures
            r == self.spec_kind(),
    {
        match self {
            FreezingError::AccessDenied => ErrorKind::AccessDenied,
            FreezingError::Overflow => ErrorKind::Overflow,
            FreezingError::ZeroFreezingAmount => ErrorKind::StateConflict,
            FreezingError::ZeroUnfreezingAmount => ErrorKind::StateConflict,
            FreezingError::AdditionalFreezingNotAvailable => ErrorKind::StateConflict,
            FreezingError::ZeroGpassEarned => ErrorKind::NotYetDue,
            FreezingError::Gpass(e) => e.kind(),
            _ => ErrorKind::InvalidParameter,
        }
    }
}

/// One tier: locking at least `ggwp_amount` earns `gpass_amount` credits.
#[derive(Clone, Copy, Debug, PartialEq, Eq, Structural)]
pub struct RewardTableRow {
    pub ggwp_amount: u64,
    pub gpass_amount: u64,
}

/// Lock vault settings and totals.
#[derive(Clone, Debug)]
pub struct FreezingInfo {
    pub admin: AccountId,
    pub update_auth: AccountId,
    pub ggwp_token: AccountId,
    pub gpass_info: AccountId,
    /// Scoped authority of this vault, listed as a minter by the ledger.
    pub gpass_mint_auth: AccountId,
    /// Fund that receives royalties.
    pub accumulative_fund: AccountId,
    /// Fund that holds the locked tokens, owned by `treasury_auth`.
    pub treasury: AccountId,
    pub treasury_auth: AccountId,
    pub total_freezed: u64,
    pub current_users_freezed: u64,
    pub daily_gpass_reward: u64,
    pub reward_period: i64,
    pub royalty: u8,
    pub unfreeze_royalty: u8,
    pub unfreeze_lock_period: i64,
    pub reward_table: Vec<RewardTableRow>,
}

/// A user's lock position; inactive while `freezed_amount` is zero.
#[derive(Clone, Copy, Debug, PartialEq, Eq, Structural)]
pub struct UserInfo {
    pub is_initialized: bool,
    pub freezed_amount: u64,
    pub freezed_time: i64,
    pub last_getting_gpass: i64,
}

/// The accounts a lock vault is set up with.
#[derive(Clone, Copy, Debug)]
pub struct FreezingAccounts {
    pub admin: AccountId,
    pub program_id: AccountId,
    pub freezing_info: AccountId,
    pub ggwp_token: AccountId,
    pub gpass_info: AccountId,
    pub accumulative_fund: AccountId,
    pub treasury: AccountId,
}

/// Non-empty, at most five rows, no zero entry, both columns strictly increasing.
pub open spec fn table_valid(t: Seq<RewardTableRow>) -> bool {
    &&& 0 < t.len() <= MAX_REWARDS_TABLE_ROWS
    &&& forall|i: int|
        0 <= i < t.len() ==> #[trigger] t[i].ggwp_amount != 0 && t[i].gpass_amount != 0
    &&& forall|i: int, j: int|
        0 <= j < i < t.len() ==> #[trigger] t[j].ggwp_amount < #[trigger] t[i].ggwp_amount
            && t[j].gpass_amount < t[i].gpass_amount
}

/// Walks the table in order, keeping the reward of each row whose threshold
/// `amount` reaches, and stops at the first row it does not reach.
pub open spec fn scan(t: Seq<RewardTableRow>, amount: u64, acc: u64) -> u64
    decreases t.len(),
{
    if t.len() == 0 {
        acc
    } else if amount >= t[0].ggwp_amount {
        scan(t.subrange(1, t.len() as int), amount, t[0].gpass_amount)
    } else {
        acc
    }
}

/// The credit reward for holding `amount`: that of the highest tier reached, or 0.
pub open spec fn tier_reward(t: Seq<RewardTableRow>, amount: u64) -> u64 {
    scan(t, amount, 0)
}

impl FreezingInfo {
    /// Limits that initialization and the setters maintain.
    pub open spec fn wf(&self) -> bool {
        &&& self.royalty <= 100
        &&& self.unfreeze_royalty <= 100
        &&& self.unfreeze_lock_period != 0
        &&& self.reward_period > 0
        &&& table_valid(self.reward_table@)
    }
}

/// Number of whole accrual periods from `last` to `current`.
pub open spec fn periods_spec(current: i64, last: i64, period: i64) -> Result<u64, FreezingError> {
    if period <= 0 {
        Err(FreezingError::InvalidRewardPeriod)
    } else if current - last > i64::MAX || current - last < i64::MIN {
        Err(FreezingError::Overflow)
    } else if current - last < period {
        Ok(0)
    } else {
        Ok(((current - last) / (period as int)) as u64)
    }
}

/// Credits accrued by a position of `amount` since `last`, with the number of periods.
pub open spec fn earned_spec(
    t: Seq<RewardTableRow>,
    amount: u64,
    current: i64,
    last: i64,
    period: i64,
) -> Result<(u64, u64), FreezingError> {
    match periods_spec(current, last, period) {
        Err(e) => Err(e),
        Ok(p) => if tier_reward(t, amount) * p > u64::MAX {
            Err(FreezingError::Overflow)
        } else {
            Ok(((tier_reward(t, amount) * p) as u64, p))
        },
    }
}

/// Checks on a lock request: royalty, net amount and immediate reward.
pub open spec fn freeze_outcome(info: FreezingInfo, user: UserInfo, amount: u64) -> Result<
    (u64, u64, u64),
    FreezingError,
> {
    if amount == 0 {
        Err(FreezingError::ZeroFreezingAmount)
    } else if user.freezed_amount != 0 {
        Err(FreezingError::AdditionalFreezingNotAvailable)
    } else if percent_of(info.royalty as int, amount as int) > amount {
        Err(FreezingError::Overflow)
    } else {
        let royalty = percent_of(info.royalty as int, amount as int);
        let net = amount - royalty;
        if info.total_freezed + net > u64::MAX || info.current_users_freezed + 1 > u64::MAX {
            Err(FreezingError::Overflow)
        } else {
            Ok((royalty as u64, net as u64, tier_reward(info.reward_table@, net as u64)))
        }
    }
}

/// Checks on an unlock request: accrued credits and periods, and the
/// early-exit royalty (`None` once the lock period has passed).
pub open spec fn unfreeze_outcome(info: FreezingInfo, user: UserInfo, now: i64) -> Result<
    (u64, u64, Option<u64>),
    FreezingError,
> {
    if user.freezed_amount == 0 {
        Err(FreezingError::ZeroUnfreezingAmount)
    } else {
        match earned_spec(
            info.reward_table@,
            user.freezed_amount,
            now,
            user.last_getting_gpass,
            info.reward_period,
        ) {
            Err(e) => Err(e),
            Ok((earned, periods)) => if info.total_freezed < user.freezed_amount
                || info.current_users_freezed == 0 {
                Err(FreezingError::Overflow)
            } else {
                match is_withdraw_royalty_spec(now, user.freezed_time, info.unfreeze_lock_period) {
                    Err(e) => Err(e),
                    Ok(false) => Ok((earned, periods, None)),
                    Ok(true) => if percent_of(info.unfreeze_royalty as int, user.freezed_amount as int)
                        > user.freezed_amount {
                        Err(FreezingError::Overflow)
                    } else {
                        Ok(
                            (
                                earned,
                                periods,
                                Some(
                                    percent_of(
                                        info.unfreeze_royalty as int,
                                        user.freezed_amount as int,
                                    ) as u64,
                                ),
                            ),
                        )
                    },
                }
            },
        }
    }
}

/// Whether unlocking at `current` still owes the early-exit royalty.
pub open spec fn is_withdraw_royalty_spec(current: i64, freezed_time: i64, lock_period: i64) -> Result<
    bool,
    FreezingError,
> {
    if current - freezed_time > i64::MAX || current - freezed_time < i64::MIN {
        Err(FreezingError::Overflow)
    } else {
        Ok(current - freezed_time < lock_period)
    }
}

/// Both columns strictly increase from row to row.
pub open spec fn tiers_sorted(t: Seq<RewardTableRow>) -> bool {
    forall|i: int, j: int|
        0 <= j < i < t.len() ==> #[trigger] t[j].ggwp_amount < #[trigger] t[i].ggwp_amount
            && t[j].gpass_amount < t[i].gpass_amount
}

proof fn lemma_sorted_rest(t: Seq<RewardTableRow>)
    requires
        tiers_sorted(t),
        t.len() > 0,
    ensures
        tiers_sorted(t.subrange(1, t.len() as int)),
{
    let rest = t.subrange(1, t.len() as int);
    assert forall|i: int, j: int| 0 <= j < i < rest.len() implies #[trigger] rest[j].ggwp_amount
        < #[trigger] rest[i].ggwp_amount && rest[j].gpass_amount < rest[i].gpass_amount by {
        assert(rest[j] == t[j + 1] && rest[i] == t[i + 1]);
        assert(t[j + 1].ggwp_amount < t[i + 1].ggwp_amount);
    }
}

proof fn lemma_scan_at_least(t: Seq<RewardTableRow>, amount: u64, acc: u64)
    requires
        tiers_sorted(t),
        t.len() > 0 ==> acc <= t[0].gpass_amount,
    ensures
        scan(t, amount, acc) >= acc,
    decreases t.len(),
{
    if t.len() > 0 && amount >= t[0].ggwp_amount {
        let rest = t.subrange(1, t.len() as int);
        lemma_sorted_rest(t);
        if rest.len() > 0 {
            assert(rest[0] == t[1]);
            assert(t[0].ggwp_amount < t[1].ggwp_amount && t[0].gpass_amount < t[1].gpass_amount);
        }
        lemma_scan_at_least(rest, amount, t[0].gpass_amount);
    }
}

proof fn lemma_scan_monotone(t: Seq<RewardTableRow>, a1: u64, a2: u64, acc: u64)
    requires
        tiers_sorted(t),
        a1 <= a2,
        t.len() > 0 ==> acc <= t[0].gpass_amount,
    ensures
        scan(t, a1, acc) <= scan(t, a2, acc),
    decreases t.len(),
{
    if t.len() > 0 {
        let rest = t.subrange(1, t.len() as int);
        lemma_sorted_rest(t);
        if rest.len() > 0 {
            assert(rest[0] == t[1]);
            assert(t[0].ggwp_amount < t[1].ggwp_amount && t[0].gpass_amount < t[1].gpass_amount);
        }
        if a1 >= t[0].ggwp_amount {
            lemma_scan_monotone(rest, a1, a2, t[0].gpass_amount);
        } else if a2 >= t[0].ggwp_amount {
            lemma_scan_at_least(rest, a2, t[0].gpass_amount);
        }
    }
}

proof fn lemma_scan_highest(t: Seq<RewardTableRow>, amount: u64, acc: u64, k: int)
    requires
        tiers_sorted(t),
        0 <= k < t.len(),
        t[k].ggwp_amount <= amount,
        k + 1 == t.len() || amount < t[k + 1].ggwp_amount,
    ensures
        scan(t, amount, acc) == t[k].gpass_amount,
    decreases k,
{
    let rest = t.subrange(1, t.len() as int);
    if k == 0 {
        if rest.len() > 0 {
            assert(rest[0] == t[1]);
        }
        assert(scan(rest, amount, t[0].gpass_amount) == t[0].gpass_amount);
    } else {
        assert(t[0].ggwp_amount < t[k].ggwp_amount);
        lemma_sorted_rest(t);
        assert(rest[k - 1] == t[k]);
        if k < rest.len() {
            assert(rest[k] == t[k + 1]);
        }
        lemma_scan_highest(rest, amount, t[0].gpass_amount, k - 1);
    }
}

/// Tiered lookup on a valid table is monotone: locking more never earns less.
pub proof fn lemma_tier_reward_monotone(t: Seq<RewardTableRow>, a1: u64, a2: u64)
    requires
        table_valid(t),
        a1 <= a2,
    ensures
        tier_reward(t, a1) <= tier_reward(t, a2),
{
    lemma_scan_monotone(t, a1, a2, 0);
}

/// Tiered lookup on a valid table gives the reward of the highest threshold
/// that the amount reaches (so every amount of one tier gets the same
/// reward, and every amount at or above the last threshold gets the top
/// reward), and 0 below the first threshold.
pub proof fn lemma_tier_reward_highest(t: Seq<RewardTableRow>, amount: u64, k: int)
    requires
        table_valid(t),
        0 <= k < t.len(),
        t[k].ggwp_amount <= amount,
        k + 1 == t.len() || amount < t[k + 1].ggwp_amount,
    ensures
        tier_reward(t, amount) == t[k].gpass_amount,
{
    lemma_scan_highest(t, amount, 0, k);
}

/// Below the first threshold a valid table pays nothing.
pub proof fn lemma_tier_reward_below_first(t: Seq<RewardTableRow>, amount: u64)
    requires
        table_valid(t),
        amount < t[0].ggwp_amount,
    ensures
        tier_reward(t, amount) == 0,
{
}

/// Checks that a reward table is well formed.
pub fn is_reward_table_valid(reward_table: &Vec<RewardTableRow>) -> (r: Result<bool, FreezingError>)
    ensures
        r == Ok::<bool, FreezingError>(table_valid(reward_table@)),
{
    if reward_table.len() == 0 {
        return Ok(false);
    }
    if reward_table.len() > MAX_REWARDS_TABLE_ROWS {
        return Ok(false);
    }
    let mut i: usize = 0;
    while i < reward_table.len()
        invariant
            i <= reward_table@.len(),
            0 < reward_table@.len() <= MAX_REWARDS_TABLE_ROWS,
            forall|k: int| 0 <= k < i ==> #[trigger] reward_table@[k].ggwp_amount != 0 && reward_table@[k].gpass_amount != 0,
            forall|k: int, j: int|
                0 <= j < k < i ==> #[trigger] reward_table@[j].ggwp_amount < #[trigger] reward_table@[k].ggwp_amount
                    && reward_table@[j].gpass_amount < reward_table@[k].gpass_amount,
        decreases reward_table@.len() - i,
    {
        if reward_table[i].ggwp_amount == 0 || reward_table[i].gpass_amount == 0 {
            assert(!(reward_table@[i as int].ggwp_amount != 0 && reward_table@[i as int].gpass_amount != 0));
            return Ok(false);
        }
        let mut j: usize = 0;
        while j < i
            invariant
                i < reward_table@.len(),
                j <= i,
                forall|k: int|
                    0 <= k < j ==> reward_table@[k].ggwp_amount < reward_table@[i as int].ggwp_amount && reward_table@[k].gpass_amount
                        < reward_table@[i as int].gpass_amount,
            decreases i - j,
        {
            if reward_table[i].ggwp_amount <= reward_table[j].ggwp_amount {
                assert(!(reward_table@[j as int].ggwp_amount < reward_table@[i as int].ggwp_amount));
                return Ok(false);
            }
            if reward_table[i].gpass_amount <= reward_table[j].gpass_amount {
                assert(!(reward_table@[j as int].ggwp_amount < reward_table@[i as int].ggwp_amount && reward_table@[j as int].gpass_amount
                    < reward_table@[i as int].gpass_amount));
                return Ok(false);
            }
            j = j + 1;
        }
        i = i + 1;
    }
    Ok(true)
}

/// The immediate credit reward for locking `user_ggwp_amount`: the reward of
/// the highest tier whose threshold it reaches, 0 below the first tier.
pub fn earned_gpass_immediately(reward_table: &Vec<RewardTableRow>, user_ggwp_amount: u64) -> (r:
    Result<u64, FreezingError>)
    ensures
        r == Ok::<u64, FreezingError>(tier_reward(reward_table@, user_ggwp_amount)),
{
    let mut earned: u64 = 0;
    let mut i: usize = 0;
    assert(reward_table@.subrange(0, reward_table@.len() as int) =~= reward_table@);
    while i < reward_table.len()
        invariant
            i <= reward_table@.len(),
            tier_reward(reward_table@, user_ggwp_amount) == scan(
                reward_table@.subrange(i as int, reward_table@.len() as int),
                user_ggwp_amount,
                earned,
            ),
        decreases reward_table@.len() - i,
    {
        let ghost rest = reward_table@.subrange(i as int, reward_table@.len() as int);
        assert(rest[0] == reward_table@[i as int]);
        if user_ggwp_amount >= reward_table[i].ggwp_amount {
            assert(rest.subrange(1, rest.len() as int) =~= reward_table@.subrange(i + 1, reward_table@.len() as int));
            earned = reward_table[i].gpass_amount;
            i = i + 1;
        } else {
            return Ok(earned);
        }
    }
    assert(reward_table@.subrange(i as int, reward_table@.len() as int).len() == 0);
    Ok(earned)
}

/// Number of whole accrual periods and credits accrued since `last`.
fn accrued(
    reward_table: &Vec<RewardTableRow>,
    amount: u64,
    current_time: i64,
    last: i64,
    reward_period: i64,
) -> (r: Result<(u64, u64), FreezingError>)
    ensures
        r == earned_spec(reward_table@, amount, current_time, last, reward_period),
        r matches Ok((_, p)) ==> p == 0 || last + p * reward_period <= current_time,
{
    if reward_period <= 0 {
        return Err(FreezingError::InvalidRewardPeriod);
    }
    let spent: i128 = current_time as i128 - last as i128;
    if spent > i64::MAX as i128 || spent < i64::MIN as i128 {
        return Err(FreezingError::Overflow);
    }
    if spent < reward_period as i128 {
        assert(tier_reward(reward_table@, amount) * 0 == 0);
        return Ok((0, 0));
    }
    let periods: u64 = (spent as u64) / (reward_period as u64);
    proof {
        let s = spent as int;
        let p = reward_period as int;
        assert((s / p) * p <= s) by (nonlinear_arith)
            requires
                s >= p,
                p > 0,
        ;
    }
    let tier = earned_gpass_immediately(reward_table, amount)?;
    proof {
        assert((tier as int) * (periods as int) <= (u64::MAX as int) * (u64::MAX as int))
            by (nonlinear_arith)
            requires
                tier <= u64::MAX,
                periods <= u64::MAX,
        ;
    }
    if tier as u128 * periods as u128 > u64::MAX as u128 {
        return Err(FreezingError::Overflow);
    }
    Ok((tier * periods, periods))
}

/// Credits accrued by a position of `user_ggwp_amount` from
/// `last_getting_gpass` to `current_time`: the tier reward times the number
/// of whole reward periods elapsed.
pub fn calc_earned_gpass(
    reward_table: &Vec<RewardTableRow>,
    user_ggwp_amount: u64,
    current_time: i64,
    last_getting_gpass: i64,
    reward_period: i64,
) -> (r: Result<u64, FreezingError>)
    ensures
        match earned_spec(
            reward_table@,
            user_ggwp_amount,
            current_time,
            last_getting_gpass,
            reward_period,
        ) {
            Ok((e, _)) => r == Ok::<u64, FreezingError>(e),
            Err(x) => r == Err::<u64, FreezingError>(x),
        },
{
    let (earned, _) = accrued(
        reward_table,
        user_ggwp_amount,
        current_time,
        last_getting_gpass,
        reward_period,
    )?;
    Ok(earned)
}

/// Whether unlocking at `current_time` still owes the early-exit royalty:
/// true while less than `unfreeze_lock_period` seconds have passed.
pub fn is_withdraw_royalty(current_time: i64, freezed_time: i64, unfreeze_lock_period: i64) -> (r:
    Result<bool, FreezingError>)
    ensures
        r == is_withdraw_royalty_spec(current_time, freezed_time, unfreeze_lock_period),
{
    let spent: i128 = current_time as i128 - freezed_time as i128;
    if spent > i64::MAX as i128 || spent < i64::MIN as i128 {
        return Err(FreezingError::Overflow);
    }
    Ok(spent < unfreeze_lock_period as i128)
}

/// Royalty in percent on `amount`, as this module's error type.
fn royalty_of(royalty: u8, amount: u64) -> (r: Result<u64, FreezingError>)
    ensures
        percent_of(royalty as int, amount as int) > amount ==> r == Err::<u64, _>(
            FreezingError::Overflow,
        ),
        percent_of(royalty as int, amount as int) <= amount ==> r == Ok::<u64, FreezingError>(
            percent_of(royalty as int, amount as int) as u64,
        ),
{
    match calc_royalty_amount(royalty, amount) {
        Ok(v) => if v > amount {
            Err(FreezingError::Overflow)
        } else {
            Ok(v)
        },
        Err(_) => Err(FreezingError::Overflow),
    }
}

/// Sets up a lock vault. Derives the vault's two scoped authorities: the one
/// the ledger lists as a minter and the one that owns the treasury.
pub fn initialize(
    accounts: &FreezingAccounts,
    update_auth: AccountId,
    params: FreezingParams,
    reward_table: Vec<RewardTableRow>,
) -> (r: Result<FreezingInfo, FreezingError>)
    ensures
        params.royalty > 100 ==> r == Err::<FreezingInfo, _>(FreezingError::InvalidRoyaltyValue),
        params.royalty <= 100 && params.unfreeze_royalty > 100 ==> r == Err::<FreezingInfo, _>(
            FreezingError::InvalidUnfreezeRoyaltyValue,
        ),
        params.royalty <= 100 && params.unfreeze_royalty <= 100 && params.unfreeze_lock_period == 0
            ==> r == Err::<FreezingInfo, _>(FreezingError::InvalidUnfreezeLockPeriod),
        params.royalty <= 100 && params.unfreeze_royalty <= 100 && params.unfreeze_lock_period != 0
            && !table_valid(reward_table@) ==> r == Err::<FreezingInfo, _>(
            FreezingError::InvalidRewardTable,
        ),
        params.royalty <= 100 && params.unfreeze_royalty <= 100 && params.unfreeze_lock_period != 0
            && table_valid(reward_table@) && params.reward_period <= 0 ==> r == Err::<
            FreezingInfo,
            _,
        >(FreezingError::InvalidRewardPeriod),
        r is Ok ==> authority_of(
            GPASS_MINT_AUTH_SEED.spec_bytes(),
            seq![accounts.freezing_info, accounts.gpass_info],
            accounts.program_id@,
        ) is Some && authority_of(
            TREASURY_AUTH_SEED.spec_bytes(),
            seq![accounts.freezing_info],
            accounts.program_id@,
        ) is Some,
        r is Ok <==> (params.royalty <= 100 && params.unfreeze_royalty <= 100
            && params.unfreeze_lock_period != 0 && table_valid(reward_table@) && params.reward_period
            > 0 && authority_of(
            GPASS_MINT_AUTH_SEED.spec_bytes(),
            seq![accounts.freezing_info, accounts.gpass_info],
            accounts.program_id@,
        ) is Some && authority_of(
            TREASURY_AUTH_SEED.spec_bytes(),
            seq![accounts.freezing_info],
            accounts.program_id@,
        ) is Some),
        r matches Ok(s) ==> {
            &&& s.wf()
            &&& s.admin == accounts.admin
            &&& s.update_auth == update_auth
            &&& s.ggwp_token == accounts.ggwp_token
            &&& s.gpass_info == accounts.gpass_info
            &&& s.accumulative_fund == accounts.accumulative_fund
            &&& s.treasury == accounts.treasury
            &&& Some(s.gpass_mint_auth@) == authority_of(
                GPASS_MINT_AUTH_SEED.spec_bytes(),
                seq![accounts.freezing_info, accounts.gpass_info],
                accounts.program_id@,
            )
            &&& Some(s.treasury_auth@) == authority_of(
                TREASURY_AUTH_SEED.spec_bytes(),
                seq![accounts.freezing_info],
                accounts.program_id@,
            )
            &&& s.total_freezed == 0
            &&& s.current_users_freezed == 0
            &&& s.daily_gpass_reward == 0
            &&& s.reward_period == params.reward_period
            &&& s.royalty == params.royalty
            &&& s.unfreeze_royalty == params.unfreeze_royalty
            &&& s.unfreeze_lock_period == params.unfreeze_lock_period
            &&& s.reward_table@ == reward_table@
        },
{
    if params.royalty > 100 {
        return Err(FreezingError::InvalidRoyaltyValue);
    }
    if params.unfreeze_royalty > 100 {
        return Err(FreezingError::InvalidUnfreezeRoyaltyValue);
    }
    if params.unfreeze_lock_period == 0 {
        return Err(FreezingError::InvalidUnfreezeLockPeriod);
    }
    let valid = is_reward_table_valid(&reward_table)?;
    if !valid {
        return Err(FreezingError::InvalidRewardTable);
    }
    if params.reward_period <= 0 {
        return Err(FreezingError::InvalidRewardPeriod);
    }
    let mut keys: Vec<AccountId> = Vec::new();
    keys.push(accounts.freezing_info);
    keys.push(accounts.gpass_info);
    assert(keys@ =~= seq![accounts.freezing_info, accounts.gpass_info]);
    let gpass_mint_auth = match derive_authority(GPASS_MINT_AUTH_SEED, &keys, &accounts.program_id) {
        Some(a) => a,
        None => {
            return Err(FreezingError::InvalidGPASSMintAuth);
        },
    };
    let mut keys: Vec<AccountId> = Vec::new();
    keys.push(accounts.freezing_info);
    assert(keys@ =~= seq![accounts.freezing_info]);
    let treasury_auth = match derive_authority(TREASURY_AUTH_SEED, &keys, &accounts.program_id) {
        Some(a) => a,
        None => {
            return Err(FreezingError::InvalidTreasuryOwner);
        },
    };
    Ok(
        FreezingInfo {
            admin: accounts.admin,
            update_auth,
            ggwp_token: accounts.ggwp_token,
            gpass_info: accounts.gpass_info,
            gpass_mint_auth,
            accumulative_fund: accounts.accumulative_fund,
            treasury: accounts.treasury,
            treasury_auth,
            total_freezed: 0,
            current_users_freezed: 0,
            daily_gpass_reward: 0,
            reward_period: params.reward_period,
            royalty: params.royalty,
            unfreeze_royalty: params.unfreeze_royalty,
            unfreeze_lock_period: params.unfreeze_lock_period,
            reward_table,
        },
    )
}

/// The admin hands the admin role to `admin`.
pub fn update_admin(info: &mut FreezingInfo, authority: &AccountId, admin: AccountId) -> (r: Result<
    (),
    FreezingError,
>)
    ensures
        r is Ok <==> authority@ == old(info).admin@,
        r is Err ==> r == Err::<(), _>(FreezingError::AccessDenied) && *final(info) == *old(info),
        r is Ok ==> *final(info) == (FreezingInfo { admin, ..*old(info) }),
{
    if !authority.same(&info.admin) {
        return Err(FreezingError::AccessDenied);
    }
    info.admin = admin;
    Ok(())
}

/// The admin sets a new update authority.
pub fn set_update_authority(
    info: &mut FreezingInfo,
    authority: &AccountId,
    update_auth: AccountId,
) -> (r: Result<(), FreezingError>)
    ensures
        r is Ok <==> authority@ == old(info).admin@,
        r is Err ==> r == Err::<(), _>(FreezingError::AccessDenied) && *final(info) == *old(info),
        r is Ok ==> *final(info) == (FreezingInfo { update_auth, ..*old(info) }),
{
    if !authority.same(&info.admin) {
        return Err(FreezingError::AccessDenied);
    }
    info.update_auth = update_auth;
    Ok(())
}

/// The update authority sets the lock royalty (at most 100 percent).
pub fn update_royalty(info: &mut FreezingInfo, authority: &AccountId, royalty: u8) -> (r: Result<
    (),
    FreezingError,
>)
    ensures
        royalty > 100 ==> r == Err::<(), _>(FreezingError::InvalidRoyaltyValue),
        royalty <= 100 && authority@ != old(info).update_auth@ ==> r == Err::<(), _>(
            FreezingError::AccessDenied,
        ),
        r is Err ==> *final(info) == *old(info),
        r is Ok ==> *final(info) == (FreezingInfo { royalty, ..*old(info) }),
        r is Ok <==> royalty <= 100 && authority@ == old(info).update_auth@,
{
    if royalty > 100 {
        return Err(FreezingError::InvalidRoyaltyValue);
    }
    if !authority.same(&info.update_auth) {
        return Err(FreezingError::AccessDenied);
    }
    info.royalty = royalty;
    Ok(())
}

/// The update authority sets the early-exit royalty (at most 100 percent).
pub fn update_unfreeze_royalty(
    info: &mut FreezingInfo,
    authority: &AccountId,
    unfreeze_royalty: u8,
) -> (r: Result<(), FreezingError>)
    ensures
        unfreeze_royalty > 100 ==> r == Err::<(), _>(FreezingError::InvalidUnfreezeRoyaltyValue),
        unfreeze_royalty <= 100 && authority@ != old(info).update_auth@ ==> r == Err::<(), _>(
            FreezingError::AccessDenied,
        ),
        r is Err ==> *final(info) == *old(info),
        r is Ok ==> *final(info) == (FreezingInfo { unfreeze_royalty, ..*old(info) }),
        r is Ok <==> unfreeze_royalty <= 100 && authority@ == old(info).update_auth@,
{
    if unfreeze_royalty > 100 {
        return Err(FreezingError::InvalidUnfreezeRoyaltyValue);
    }
    if !authority.same(&info.update_auth) {
        return Err(FreezingError::AccessDenied);
    }
    info.unfreeze_royalty = unfreeze_royalty;
    Ok(())
}

/// The update authority replaces the reward table with a valid one.
pub fn update_reward_table(
    info: &mut FreezingInfo,
    authority: &AccountId,
    reward_table: Vec<RewardTableRow>,
) -> (r: Result<(), FreezingError>)
    ensures
        !table_valid(reward_table@) ==> r == Err::<(), _>(FreezingError::InvalidRewardTable),
        table_valid(reward_table@) && authority@ != old(info).update_auth@ ==> r == Err::<(), _>(
            FreezingError::AccessDenied,
        ),
        r is Err ==> *final(info) == *old(info),
        r is Ok ==> *final(info) == (FreezingInfo { reward_table, ..*old(info) }),
        r is Ok <==> table_valid(reward_table@) && authority@ == old(info).update_auth@,
{
    let valid = is_reward_table_valid(&reward_table)?;
    if !valid {
        return Err(FreezingError::InvalidRewardTable);
    }
    if !authority.same(&info.update_auth) {
        return Err(FreezingError::AccessDenied);
    }
    info.reward_table = reward_table;
    Ok(())
}

/// The update authority sets the accrual period (positive, in seconds).
pub fn update_reward_period(info: &mut FreezingInfo, authority: &AccountId, reward_period: i64) -> (r:
    Result<(), FreezingError>)
    ensures
        reward_period <= 0 ==> r == Err::<(), _>(FreezingError::InvalidRewardPeriod),
        reward_period > 0 && authority@ != old(info).update_auth@ ==> r == Err::<(), _>(
            FreezingError::AccessDenied,
        ),
        r is Err ==> *final(info) == *old(info),
        r is Ok ==> *final(info) == (FreezingInfo { reward_period, ..*old(info) }),
        r is Ok <==> reward_period > 0 && authority@ == old(info).update_auth@,
{
    if reward_period <= 0 {
        return Err(FreezingError::InvalidRewardPeriod);
    }
    if !authority.same(&info.update_auth) {
        return Err(FreezingError::AccessDenied);
    }
    info.reward_period = reward_period;
    Ok(())
}

/// The update authority sets the lock period (non-zero, in seconds).
pub fn update_unfreeze_lock_period(
    info: &mut FreezingInfo,
    authority: &AccountId,
    unfreeze_lock_period: i64,
) -> (r: Result<(), FreezingError>)
    ensures
        unfreeze_lock_period == 0 ==> r == Err::<(), _>(FreezingError::InvalidUnfreezeLockPeriod),
        unfreeze_lock_period != 0 && authority@ != old(info).update_auth@ ==> r == Err::<(), _>(
            FreezingError::AccessDenied,
        ),
        r is Err ==> *final(info) == *old(info),
        r is Ok ==> *final(info) == (FreezingInfo { unfreeze_lock_period, ..*old(info) }),
        r is Ok <==> unfreeze_lock_period != 0 && authority@ == old(info).update_auth@,
{
    if unfreeze_lock_period == 0 {
        return Err(FreezingError::InvalidUnfreezeLockPeriod);
    }
    if !authority.same(&info.update_auth) {
        return Err(FreezingError::AccessDenied);
    }
    info.unfreeze_lock_period = unfreeze_lock_period;
    Ok(())
}

/// The two transfers of a lock: the royalty to the accumulative fund and
/// the net amount to the treasury, both out of the user's token account.
pub open spec fn freeze_transfers(info: FreezingInfo, user: AccountId, user_wallet: AccountId, royalty: u64, net: u64) -> Seq<Transfer> {
    seq![
        Transfer { from: user_wallet, to: info.accumulative_fund, authority: user, amount: royalty },
        Transfer { from: user_wallet, to: info.treasury, authority: user, amount: net },
    ]
}

/// The transfers of an unlock, signed by the treasury's scoped authority:
/// the early-exit royalty (if owed) to the accumulative fund, then the rest
/// to the user's token account.
pub open spec fn unfreeze_transfers(info: FreezingInfo, user_wallet: AccountId, amount: u64, royalty: Option<u64>) -> Seq<Transfer> {
    match royalty {
        Some(fee) => seq![
            Transfer { from: info.treasury, to: info.accumulative_fund, authority: info.treasury_auth, amount: fee },
            Transfer { from: info.treasury, to: user_wallet, authority: info.treasury_auth, amount: (amount - fee) as u64 },
        ],
        None => seq![
            Transfer { from: info.treasury, to: user_wallet, authority: info.treasury_auth, amount },
        ],
    }
}

/// A user locks `amount`. The royalty is withheld, the net amount is locked,
/// and the reward of the tier the net amount reaches is minted at once
/// through the vault's minter authority on the ledger.
pub fn freeze(
    info: &mut FreezingInfo,
    user_info: &mut UserInfo,
    gpass_info: &mut GpassSettings,
    user_gpass_wallet: &mut Wallet,
    user: &AccountId,
    user_ggwp_wallet: &AccountId,
    amount: u64,
    now: i64,
) -> (r: Result<Vec<Transfer>, FreezingError>)
    ensures
        match freeze_outcome(*old(info), *old(user_info), amount) {
            Err(e) => r == Err::<Vec<Transfer>, _>(e),
            Ok((royalty, net, earned)) => if earned > 0 && mint_spec(
                *old(gpass_info),
                *old(user_gpass_wallet),
                old(info).gpass_mint_auth@,
                earned,
                now,
            ) is Err {
                r == Err::<Vec<Transfer>, _>(FreezingError::Gpass(
                    mint_spec(*old(gpass_info), *old(user_gpass_wallet), old(info).gpass_mint_auth@, earned, now)->Err_0,
                ))
            } else {
                &&& r is Ok
                &&& r->Ok_0@ == freeze_transfers(*old(info), *user, *user_ggwp_wallet, royalty, net)
                &&& *final(user_info) == (UserInfo { is_initialized: true, freezed_amount: net, freezed_time: now, last_getting_gpass: now })
                &&& *final(info) == (FreezingInfo {
                    total_freezed: (old(info).total_freezed + net) as u64,
                    current_users_freezed: (old(info).current_users_freezed + 1) as u64,
                    ..*old(info)
                })
                &&& earned == 0 ==> *final(gpass_info) == *old(gpass_info) && *final(user_gpass_wallet) == *old(user_gpass_wallet)
                &&& earned > 0 ==> mint_spec(*old(gpass_info), *old(user_gpass_wallet), old(info).gpass_mint_auth@, earned, now)
                    == Ok::<(u64, Wallet), GpassError>((final(gpass_info).total_amount, *final(user_gpass_wallet)))
                    && final(gpass_info).same_config(old(gpass_info))
            },
        },
        r is Err ==> *final(info) == *old(info) && *final(user_info) == *old(user_info)
            && *final(gpass_info) == *old(gpass_info) && *final(user_gpass_wallet) == *old(user_gpass_wallet),
{
    if amount == 0 {
        return Err(FreezingError::ZeroFreezingAmount);
    }
    if user_info.freezed_amount != 0 {
        return Err(FreezingError::AdditionalFreezingNotAvailable);
    }
    let royalty = royalty_of(info.royalty, amount)?;
    let net = amount - royalty;
    if info.total_freezed > u64::MAX - net || info.current_users_freezed == u64::MAX {
        return Err(FreezingError::Overflow);
    }
    let earned = earned_gpass_immediately(&info.reward_table, net)?;
    if earned > 0 {
        match mint_to(gpass_info, user_gpass_wallet, &info.gpass_mint_auth, earned, now) {
            Ok(()) => {},
            Err(e) => {
                return Err(FreezingError::Gpass(e));
            },
        }
    }
    let mut transfers: Vec<Transfer> = Vec::new();
    transfers.push(Transfer::new(*user_ggwp_wallet, info.accumulative_fund, *user, royalty));
    transfers.push(Transfer::new(*user_ggwp_wallet, info.treasury, *user, net));
    info.total_freezed = info.total_freezed + net;
    info.current_users_freezed = info.current_users_freezed + 1;
    *user_info = UserInfo { is_initialized: true, freezed_amount: net, freezed_time: now, last_getting_gpass: now };
    proof {
        assert(transfers@ =~= freeze_transfers(*old(info), *user, *user_ggwp_wallet, royalty, net));
    }
    Ok(transfers)
}

/// A user collects the credits accrued over the whole reward periods since
/// the last collection; refused while nothing has accrued. The collection
/// time advances by whole periods only.
pub fn withdraw_gpass(
    info: &FreezingInfo,
    user_info: &mut UserInfo,
    gpass_info: &mut GpassSettings,
    user_gpass_wallet: &mut Wallet,
    now: i64,
) -> (r: Result<(), FreezingError>)
    ensures
        match earned_spec(info.reward_table@, old(user_info).freezed_amount, now, old(user_info).last_getting_gpass, info.reward_period) {
            Err(e) => r == Err::<(), _>(e),
            Ok((earned, periods)) => if earned == 0 {
                r == Err::<(), _>(FreezingError::ZeroGpassEarned)
            } else if mint_spec(*old(gpass_info), *old(user_gpass_wallet), info.gpass_mint_auth@, earned, now) is Err {
                r == Err::<(), _>(FreezingError::Gpass(
                    mint_spec(*old(gpass_info), *old(user_gpass_wallet), info.gpass_mint_auth@, earned, now)->Err_0,
                ))
            } else {
                &&& r is Ok
                &&& *final(user_info) == (UserInfo {
                    last_getting_gpass: (old(user_info).last_getting_gpass + periods * info.reward_period) as i64,
                    ..*old(user_info)
                })
                &&& mint_spec(*old(gpass_info), *old(user_gpass_wallet), info.gpass_mint_auth@, earned, now)
                    == Ok::<(u64, Wallet), GpassError>((final(gpass_info).total_amount, *final(user_gpass_wallet)))
                &&& final(gpass_info).same_config(old(gpass_info))
            },
        },
        r is Err ==> *final(user_info) == *old(user_info) && *final(gpass_info) == *old(gpass_info)
            && *final(user_gpass_wallet) == *old(user_gpass_wallet),
{
    let (earned, periods) = accrued(
        &info.reward_table,
        user_info.freezed_amount,
        now,
        user_info.last_getting_gpass,
        info.reward_period,
    )?;
    if earned == 0 {
        return Err(FreezingError::ZeroGpassEarned);
    }
    proof {
        assert(periods != 0) by (nonlinear_arith)
            requires earned == tier_reward(info.reward_table@, user_info.freezed_amount) * periods, earned != 0;
    }
    match mint_to(gpass_info, user_gpass_wallet, &info.gpass_mint_auth, earned, now) {
        Ok(()) => {},
        Err(e) => {
            return Err(FreezingError::Gpass(e));
        },
    }
    let advanced: i128 = user_info.last_getting_gpass as i128 + periods as i128 * info.reward_period as i128;
    user_info.last_getting_gpass = advanced as i64;
    Ok(())
}

/// A user unlocks the whole position. Accrued credits are collected first
/// (nothing is minted when none accrued); before the lock period has passed
/// the early-exit royalty goes to the accumulative fund; the rest goes back
/// to the user.
pub fn unfreeze(
    info: &mut FreezingInfo,
    user_info: &mut UserInfo,
    gpass_info: &mut GpassSettings,
    user_gpass_wallet: &mut Wallet,
    user_ggwp_wallet: &AccountId,
    now: i64,
) -> (r: Result<Vec<Transfer>, FreezingError>)
    ensures
        match unfreeze_outcome(*old(info), *old(user_info), now) {
            Err(e) => r == Err::<Vec<Transfer>, _>(e),
            Ok((earned, periods, royalty)) => if earned > 0 && mint_spec(
                *old(gpass_info),
                *old(user_gpass_wallet),
                old(info).gpass_mint_auth@,
                earned,
                now,
            ) is Err {
                r == Err::<Vec<Transfer>, _>(FreezingError::Gpass(
                    mint_spec(*old(gpass_info), *old(user_gpass_wallet), old(info).gpass_mint_auth@, earned, now)->Err_0,
                ))
            } else {
                &&& r is Ok
                &&& r->Ok_0@ == unfreeze_transfers(*old(info), *user_ggwp_wallet, old(user_info).freezed_amount, royalty)
                &&& *final(user_info) == (UserInfo {
                    is_initialized: old(user_info).is_initialized,
                    freezed_amount: 0,
                    freezed_time: 0,
                    last_getting_gpass: (old(user_info).last_getting_gpass + periods * old(info).reward_period) as i64,
                })
                &&& *final(info) == (FreezingInfo {
                    total_freezed: (old(info).total_freezed - old(user_info).freezed_amount) as u64,
                    current_users_freezed: (old(info).current_users_freezed - 1) as u64,
                    ..*old(info)
                })
                &&& earned == 0 ==> *final(gpass_info) == *old(gpass_info) && *final(user_gpass_wallet) == *old(user_gpass_wallet)
                &&& earned > 0 ==> mint_spec(*old(gpass_info), *old(user_gpass_wallet), old(info).gpass_mint_auth@, earned, now)
                    == Ok::<(u64, Wallet), GpassError>((final(gpass_info).total_amount, *final(user_gpass_wallet)))
                    && final(gpass_info).same_config(old(gpass_info))
            },
        },
        r is Err ==> *final(info) == *old(info) && *final(user_info) == *old(user_info)
            && *final(gpass_info) == *old(gpass_info) && *final(user_gpass_wallet) == *old(user_gpass_wallet),
{
    if user_info.freezed_amount == 0 {
        return Err(FreezingError::ZeroUnfreezingAmount);
    }
    let amount = user_info.freezed_amount;
    let (earned, periods) = accrued(
        &info.reward_table,
        amount,
        now,
        user_info.last_getting_gpass,
        info.reward_period,
    )?;
    if info.total_freezed < amount || info.current_users_freezed == 0 {
        return Err(FreezingError::Overflow);
    }
    let early = is_withdraw_royalty(now, user_info.freezed_time, info.unfreeze_lock_period)?;
    let fee: u64 = if early {
        royalty_of(info.unfreeze_royalty, amount)?
    } else {
        0
    };
    if earned > 0 {
        match mint_to(gpass_info, user_gpass_wallet, &info.gpass_mint_auth, earned, now) {
            Ok(()) => {},
            Err(e) => {
                return Err(FreezingError::Gpass(e));
            },
        }
    }
    let mut transfers: Vec<Transfer> = Vec::new();
    if early {
        transfers.push(Transfer::new(info.treasury, info.accumulative_fund, info.treasury_auth, fee));
    }
    transfers.push(Transfer::new(info.treasury, *user_ggwp_wallet, info.treasury_auth, amount - fee));
    let advanced: i128 = if periods == 0 {
        user_info.last_getting_gpass as i128
    } else {
        user_info.last_getting_gpass as i128 + periods as i128 * info.reward_period as i128
    };
    proof {
        let p = periods as int;
        let q = info.reward_period as int;
        assert(p * q >= 0) by (nonlinear_arith)
            requires p >= 0, q > 0;
        assert(p == 0 ==> p * q == 0) by (nonlinear_arith);
    }
    info.total_freezed = info.total_freezed - amount;
    info.current_users_freezed = info.current_users_freezed - 1;
    user_info.freezed_amount = 0;
    user_info.freezed_time = 0;
    user_info.last_getting_gpass = advanced as i64;
    proof {
        if early {
            assert(transfers@ =~= unfreeze_transfers(*old(info), *user_ggwp_wallet, amount, Some(fee)));
        } else {
            assert(transfers@ =~= unfreeze_transfers(*old(info), *user_ggwp_wallet, amount, None));
        }
    }
    Ok(transfers)
}

} // verus!
