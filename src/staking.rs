//! Stake vault: users stake the base token and withdraw it with interest
//! compounded daily at an APR that steps down each epoch to a floor.
use crate::error::ErrorKind;
use crate::ids::{authority_of, derive_authority, AccountId};
use crate::params::StakingParams;
use crate::percent::{calc_royalty_amount, percent_of};
use crate::token::Transfer;
use vstd::prelude::*;
use vstd::string::StringSliceAdditionalSpecFns;

verus! {

pub const TREASURY_AUTH_SEED: &'static str = "treasury_auth";

pub const STAKING_FUND_AUTH_SEED: &'static str = "staking_fund_auth";

pub const SECONDS_PER_DAY: i64 = 86400;

/// Fixed-point factor of the compounding computation: amounts are carried
/// with nine extra decimal digits while interest accrues.
pub const COMPOUND_SCALE: u128 = 1_000_000_000;

#[derive(Clone, Copy, Debug, PartialEq, Eq, Structural)]
pub enum StakingError {
    AccessDenied,
    Overflow,
    InvalidEpochPeriodDays,
    InvalidMinStakeAmount,
    InvalidHoldPeriodDays,
    InvalidHoldRoyalty,
    InvalidRoyalty,
    InvalidAPR,
    InvalidTreasuryOwner,
    InvalidStakingFundOwner,
    MinStakeAmountExceeded,
    AdditionalStakeNotAllowed,
    NothingToWithdraw,
}

impl StakingError {
    pub open spec fn spec_kind(self) -> ErrorKind {
        match self {
            StakingError::AccessDenied => ErrorKind::AccessDenied,
            StakingError::Overflow => ErrorKind::Overflow,
            StakingError::MinStakeAmountExceeded => ErrorKind::StateConflict,
            StakingError::AdditionalStakeNotAllowed => ErrorKind::StateConflict,
            StakingError::NothingToWithdraw => ErrorKind::StateConflict,
            _ => ErrorKind::InvalidParameter,
        }
    }

    /// The class of this error in the engine-wide taxonomy.
    pub fn kind(&self) -> (r: ErrorKind)
        ensures
            r == self.spec_kind(),
    {
        match self {
            StakingError::AccessDenied => ErrorKind::AccessDenied,
            StakingError::Overflow => ErrorKind::Overflow,
            StakingError::MinStakeAmountExceeded => ErrorKind::StateConflict,
            StakingError::AdditionalStakeNotAllowed => ErrorKind::StateConflict,
            StakingError::NothingToWithdraw => ErrorKind::StateConflict,
            _ => ErrorKind::InvalidParameter,
        }
    }
}

/// Stake vault settings and totals.
#[derive(Clone, Copy, Debug)]
pub struct StakingInfo {
    pub admin: AccountId,
    pub update_auth: AccountId,
    pub ggwp_token: AccountId,
    /// Fund that receives royalties and hold penalties.
    pub accumulative_fund: AccountId,
    /// Fund that pays the interest, owned by `staking_fund_auth`.
    pub staking_fund: AccountId,
    pub staking_fund_auth: AccountId,
    /// Fund that holds the staked tokens, owned by `treasury_auth`.
    pub treasury: AccountId,
    pub treasury_auth: AccountId,
    pub total_staked: u64,
    pub start_time: i64,
    pub epoch: u64,
    pub epoch_period_days: u16,
    pub min_stake_amount: u64,
    pub hold_period_days: u16,
    pub hold_royalty: u8,
    pub royalty: u8,
    pub apr_start: u8,
    pub apr_step: u8,
    pub apr_end: u8,
}

/// A user's stake position; inactive while `amount` is zero.
#[derive(Clone, Copy, Debug, PartialEq, Eq, Structural)]
pub struct UserInfo {
    pub is_initialized: bool,
    pub amount: u64,
    pub stake_time: i64,
}

/// The accounts a stake vault is set up with.
#[derive(Clone, Copy, Debug)]
pub struct StakingAccounts {
    pub admin: AccountId,
    pub program_id: AccountId,
    pub staking_info: AccountId,
    pub ggwp_token: AccountId,
    pub accumulative_fund: AccountId,
    pub staking_fund: AccountId,
    pub treasury: AccountId,
}

impl StakingInfo {
    /// Limits that initialization and the setters maintain.
    pub open spec fn wf(&self) -> bool {
        &&& self.epoch_period_days != 0
        &&& self.min_stake_amount != 0
        &&& self.hold_period_days != 0
        &&& 0 < self.hold_royalty <= 100
        &&& 0 < self.royalty <= 100
        &&& self.apr_start != 0
        &&& self.apr_step != 0
        &&& self.apr_end != 0
    }
}

/// Whole days in `seconds`, rounded toward zero.
pub open spec fn whole_days(seconds: int) -> int {
    if seconds >= 0 {
        seconds / (SECONDS_PER_DAY as int)
    } else {
        -((-seconds) / (SECONDS_PER_DAY as int))
    }
}

pub open spec fn is_withdraw_royalty_spec(current: i64, stake_time: i64, hold_period_days: u16) -> Result<
    bool,
    StakingError,
> {
    if current - stake_time > i64::MAX || current - stake_time < i64::MIN {
        Err(StakingError::Overflow)
    } else {
        Ok(whole_days(current - stake_time) < hold_period_days)
    }
}

/// Epoch of `time` (numbered from 1) and whether `time` falls on a whole
/// number of days that is a multiple of the epoch length.
pub open spec fn epoch_spec(start: i64, time: i64, epoch_period_days: u16) -> Result<
    (u64, bool),
    StakingError,
> {
    if time < start || epoch_period_days == 0 {
        Err(StakingError::Overflow)
    } else {
        let days = (time - start) / (SECONDS_PER_DAY as int);
        Ok(
            (
                (days / (epoch_period_days as int) + 1) as u64,
                days % (epoch_period_days as int) == 0,
            ),
        )
    }
}

/// `max(start - step * (epoch - 1), end)`.
pub open spec fn apr_spec(epoch: u64, start: u8, step: u8, end: u8) -> int {
    if start - step * (epoch - 1) < end {
        end as int
    } else {
        start - step * (epoch - 1)
    }
}

/// The consecutive integers `from, from + 1, ..., to - 1`.
pub open spec fn range_seq(from: int, to: int) -> Seq<u64> {
    Seq::new(if to > from { (to - from) as nat } else { 0 }, |i: int| (from + i) as u64)
}

/// The epochs that a stake made at `stake_time` has fully crossed by `now`.
pub open spec fn past_epochs_spec(start: i64, stake_time: i64, now: i64, epoch_period_days: u16) -> Result<
    Seq<u64>,
    StakingError,
> {
    match epoch_spec(start, stake_time, epoch_period_days) {
        Err(e) => Err(e),
        Ok((first, full)) => match epoch_spec(start, now, epoch_period_days) {
            Err(e) => Err(e),
            Ok((last, _)) => Ok(
                range_seq(
                    if full {
                        first as int
                    } else {
                        first + 1
                    },
                    last as int,
                ),
            ),
        },
    }
}

/// One day of interest at `apr` percent a year on the fixed-point amount `x`,
/// rounded down; `None` where the product leaves `u128`.
pub open spec fn day_step(x: nat, apr: int) -> Option<nat> {
    if x * (36500 + apr) > u128::MAX {
        None
    } else {
        Some((x * (36500 + apr) / 36500) as nat)
    }
}

/// `days` daily steps of interest at `apr` percent.
pub open spec fn grow(x: nat, apr: int, days: nat) -> Option<nat>
    decreases days,
{
    if days == 0 {
        Some(x)
    } else {
        match day_step(x, apr) {
            None => None,
            Some(y) => grow(y, apr, (days - 1) as nat),
        }
    }
}

/// Compounding over each epoch of `epochs` in order, at that epoch's APR.
pub open spec fn compound(x: nat, epochs: Seq<u64>, days: nat, start: u8, step: u8, end: u8) -> Option<
    nat,
>
    decreases epochs.len(),
{
    if epochs.len() == 0 {
        Some(x)
    } else {
        match grow(x, apr_spec(epochs[0], start, step, end), days) {
            None => None,
            Some(y) => compound(y, epochs.subrange(1, epochs.len() as int), days, start, step, end),
        }
    }
}

/// Interest earned by `amount` staked at `stake_time` and withdrawn at `now`.
pub open spec fn reward_spec(
    epoch_period_days: u16,
    start: i64,
    apr_start: u8,
    apr_step: u8,
    apr_end: u8,
    amount: u64,
    stake_time: i64,
    now: i64,
) -> Result<u64, StakingError> {
    match past_epochs_spec(start, stake_time, now, epoch_period_days) {
        Err(e) => Err(e),
        Ok(epochs) => match compound(
            (amount * COMPOUND_SCALE) as nat,
            epochs,
            epoch_period_days as nat,
            apr_start,
            apr_step,
            apr_end,
        ) {
            None => Err(StakingError::Overflow),
            Some(v) => if (v as int) / (COMPOUND_SCALE as int) > u64::MAX || (v as int) / (COMPOUND_SCALE as int)
                < amount {
                Err(StakingError::Overflow)
            } else {
                Ok(((v as int) / (COMPOUND_SCALE as int) - amount) as u64)
            },
        },
    }
}

/// The APR steps down: it never rises from one epoch to a later one and
/// never falls below the floor, so once the floor is reached it is held
/// for every later epoch.
pub proof fn lemma_apr_steps_down(e1: u64, e2: u64, start: u8, step: u8, end: u8)
    requires
        1 <= e1 <= e2,
    ensures
        apr_spec(e2, start, step, end) <= apr_spec(e1, start, step, end),
        apr_spec(e1, start, step, end) >= end,
        apr_spec(e1, start, step, end) == end ==> apr_spec(e2, start, step, end) == end,
{
    assert(step * (e1 - 1) <= step * (e2 - 1)) by (nonlinear_arith)
        requires
            1 <= e1 <= e2,
            step >= 0,
    ;
}

/// Epoch boundary counting: a stake made when the vault starts and withdrawn
/// at `now` has crossed exactly the epochs `1, 2, ..., k`, where `k` is the
/// number of whole epochs (of `epoch_period_days` whole days) elapsed; an
/// epoch still running when the stake is withdrawn does not count.
pub proof fn lemma_epochs_crossed_from_start(start: i64, now: i64, epoch_period_days: u16)
    requires
        epoch_period_days > 0,
        start <= now,
    ensures
        past_epochs_spec(start, start, now, epoch_period_days) == Ok::<Seq<u64>, StakingError>(
            range_seq(1, (now - start) / (SECONDS_PER_DAY as int) / (epoch_period_days as int) + 1),
        ),
        range_seq(1, (now - start) / (SECONDS_PER_DAY as int) / (epoch_period_days as int) + 1).len()
            == (now - start) / (SECONDS_PER_DAY as int) / (epoch_period_days as int),
{
    let days = (now - start) / (SECONDS_PER_DAY as int);
    assert(days >= 0);
    assert(days / (epoch_period_days as int) >= 0);
    assert(0int / (epoch_period_days as int) == 0) by (nonlinear_arith)
        requires
            epoch_period_days > 0,
    ;
    assert(0int % (epoch_period_days as int) == 0) by (nonlinear_arith)
        requires
            epoch_period_days > 0,
    ;
    assert((days / (epoch_period_days as int) + 1) as u64 == days / (epoch_period_days as int) + 1)
        by (nonlinear_arith)
        requires
            days == (now - start) / 86400,
            0 <= now - start <= u64::MAX,
            epoch_period_days > 0,
    ;
}

/// Whether withdrawing at `current_time` still owes the hold penalty: true
/// while fewer than `hold_period_days` whole days have passed since staking.
pub fn is_withdraw_royalty(current_time: i64, stake_time: i64, hold_period_days: u16) -> (r: Result<
    bool,
    StakingError,
>)
    ensures
        r == is_withdraw_royalty_spec(current_time, stake_time, hold_period_days),
{
    let spent: i128 = current_time as i128 - stake_time as i128;
    if spent > i64::MAX as i128 || spent < i64::MIN as i128 {
        return Err(StakingError::Overflow);
    }
    let days: i128 = if spent >= 0 {
        ((spent as u64) / (SECONDS_PER_DAY as u64)) as i128
    } else {
        -(((-spent) as u64 / (SECONDS_PER_DAY as u64)) as i128)
    };
    Ok(days < hold_period_days as i128)
}

/// Epoch of `time` counted from `staking_start_time` (the first epoch is 1),
/// and whether `time` lies on a whole-day epoch boundary.
pub fn get_epoch_by_time(staking_start_time: i64, time: i64, epoch_period_days: u16) -> (r: Result<
    (u64, bool),
    StakingError,
>)
    ensures
        r == epoch_spec(staking_start_time, time, epoch_period_days),
{
    if time < staking_start_time || epoch_period_days == 0 {
        return Err(StakingError::Overflow);
    }
    let spent: u64 = (time as i128 - staking_start_time as i128) as u64;
    let days: u64 = spent / (SECONDS_PER_DAY as u64);
    let epoch: u64 = days / (epoch_period_days as u64);
    proof {
        assert(days <= spent) by (nonlinear_arith)
            requires days == (spent as int) / 86400;
        assert(epoch <= days) by (nonlinear_arith)
            requires epoch == (days as int) / (epoch_period_days as int), epoch_period_days >= 1;
        assert(days < u64::MAX) by (nonlinear_arith)
            requires days == (spent as int) / 86400, spent <= u64::MAX;
    }
    let full = days % (epoch_period_days as u64) == 0;
    Ok((epoch + 1, full))
}

/// APR (percent) of `epoch`: it starts at `start_apr` and falls by `step_apr`
/// each epoch, but never below `end_apr`.
pub fn get_apr_by_epoch(epoch: u64, start_apr: u8, step_apr: u8, end_apr: u8) -> (r: Result<
    u8,
    StakingError,
>)
    requires
        epoch >= 1,
    ensures
        r matches Ok(v) && v == apr_spec(epoch, start_apr, step_apr, end_apr),
{
    proof {
        assert((step_apr as int) * ((epoch - 1) as int) <= 255 * (u64::MAX as int)) by (nonlinear_arith)
            requires step_apr <= 255, 0 <= epoch - 1 <= u64::MAX;
    }
    let decrease: u128 = step_apr as u128 * (epoch - 1) as u128;
    if decrease + (end_apr as u128) > start_apr as u128 {
        return Ok(end_apr);
    }
    Ok((start_apr as u128 - decrease) as u8)
}

/// The epochs, in order, that a stake made at `user_stake_time` has fully
/// crossed by `current_time`. The epoch the stake began in counts only if
/// the stake began on its boundary.
pub fn calc_user_past_epochs(
    staking_start_time: i64,
    user_stake_time: i64,
    current_time: i64,
    epoch_period_days: u16,
) -> (r: Result<Vec<u64>, StakingError>)
    ensures
        match past_epochs_spec(staking_start_time, user_stake_time, current_time, epoch_period_days) {
            Ok(s) => r matches Ok(v) && v@ == s,
            Err(e) => r == Err::<Vec<u64>, StakingError>(e),
        },
{
    let (mut first, full) = get_epoch_by_time(staking_start_time, user_stake_time, epoch_period_days)?;
    let (last, _) = get_epoch_by_time(staking_start_time, current_time, epoch_period_days)?;
    if !full {
        first = first + 1;
    }
    let mut epochs: Vec<u64> = Vec::new();
    let mut e: u64 = first;
    while e < last
        invariant
            first <= last ==> first <= e <= last,
            first > last ==> e == first && epochs@.len() == 0,
            first <= last ==> epochs@ == range_seq(first as int, e as int),
        decreases last - e,
    {
        epochs.push(e);
        e = e + 1;
        assert(epochs@ =~= range_seq(first as int, e as int));
    }
    assert(epochs@ =~= range_seq(first as int, last as int));
    Ok(epochs)
}

/// Daily compounding of the fixed-point amount `x` at `apr` for `days` days.
fn grow_exec(x: u128, apr: u8, days: u16) -> (r: Option<u128>)
    ensures
        r is None <==> grow(x as nat, apr as int, days as nat) is None,
        r matches Some(v) ==> grow(x as nat, apr as int, days as nat) == Some(v as nat),
{
    let mut cur: u128 = x;
    let mut d: u16 = 0;
    while d < days
        invariant
            d <= days,
            grow(x as nat, apr as int, days as nat) == grow(cur as nat, apr as int, (days - d) as nat),
        decreases days - d,
    {
        if cur > u128::MAX / (36500 + apr as u128) {
            proof {
                assert((cur as int) * (36500 + apr as int) > u128::MAX) by (nonlinear_arith)
                    requires
                        cur > (u128::MAX as int) / (36500 + apr as int),
                        36500 + apr as int > 0,
                ;
            }
            return None;
        }
        proof {
            assert((cur as int) * (36500 + apr as int) <= u128::MAX) by (nonlinear_arith)
                requires
                    cur <= (u128::MAX as int) / (36500 + apr as int),
                    36500 + apr as int > 0,
            ;
        }
        cur = cur * (36500 + apr as u128) / 36500;
        d = d + 1;
    }
    proof {
        if let Some(v) = grow(x as nat, apr as int, days as nat) {
            assert(v <= u128::MAX);
        }
    }
    Some(cur)
}

/// Interest earned by `user_staked_amount`, staked at `user_stake_time`
/// and withdrawn at `current_time`: for each epoch fully crossed, in order,
/// the running amount grows daily at that epoch's APR / 365 for the
/// epoch's length in days; the interest is the grown amount (rounded down)
/// less the staked amount.
pub fn calc_user_reward_amount(
    epoch_period_days: u16,
    staking_start_time: i64,
    staking_start_apr: u8,
    staking_step_apr: u8,
    staking_end_apr: u8,
    user_staked_amount: u64,
    user_stake_time: i64,
    current_time: i64,
) -> (r: Result<u64, StakingError>)
    ensures
        r == reward_spec(
            epoch_period_days,
            staking_start_time,
            staking_start_apr,
            staking_step_apr,
            staking_end_apr,
            user_staked_amount,
            user_stake_time,
            current_time,
        ),
{
    let epochs = calc_user_past_epochs(
        staking_start_time,
        user_stake_time,
        current_time,
        epoch_period_days,
    )?;
    let x0: u128 = user_staked_amount as u128 * COMPOUND_SCALE;
    let mut cur: u128 = x0;
    let mut i: usize = 0;
    let ghost eps = epochs@;
    assert(eps.subrange(0, eps.len() as int) =~= eps);
    while i < epochs.len()
        invariant
            eps == epochs@,
            past_epochs_spec(staking_start_time, user_stake_time, current_time, epoch_period_days)
                == Ok::<Seq<u64>, StakingError>(eps),
            x0 == user_staked_amount * COMPOUND_SCALE,
            i <= eps.len(),
            forall|k: int| 0 <= k < eps.len() ==> #[trigger] eps[k] >= 1,
            compound(
                x0 as nat,
                eps,
                epoch_period_days as nat,
                staking_start_apr,
                staking_step_apr,
                staking_end_apr,
            ) == compound(
                cur as nat,
                eps.subrange(i as int, eps.len() as int),
                epoch_period_days as nat,
                staking_start_apr,
                staking_step_apr,
                staking_end_apr,
            ),
        decreases eps.len() - i,
    {
        let ghost rest = eps.subrange(i as int, eps.len() as int);
        assert(rest[0] == eps[i as int]);
        assert(rest.subrange(1, rest.len() as int) =~= eps.subrange(i + 1, eps.len() as int));
        let apr = get_apr_by_epoch(epochs[i], staking_start_apr, staking_step_apr, staking_end_apr)?;
        match grow_exec(cur, apr, epoch_period_days) {
            Some(v) => {
                assert(compound(
                    cur as nat,
                    rest,
                    epoch_period_days as nat,
                    staking_start_apr,
                    staking_step_apr,
                    staking_end_apr,
                ) == compound(
                    v as nat,
                    rest.subrange(1, rest.len() as int),
                    epoch_period_days as nat,
                    staking_start_apr,
                    staking_step_apr,
                    staking_end_apr,
                ));
                cur = v;
            },
            None => {
                assert(compound(
                    cur as nat,
                    rest,
                    epoch_period_days as nat,
                    staking_start_apr,
                    staking_step_apr,
                    staking_end_apr,
                ) is None);
                return Err(StakingError::Overflow);
            },
        }
        i = i + 1;
    }
    assert(eps.subrange(i as int, eps.len() as int).len() == 0);
    let grown: u128 = cur / COMPOUND_SCALE;
    if grown > u64::MAX as u128 || grown < user_staked_amount as u128 {
        return Err(StakingError::Overflow);
    }
    Ok((grown - user_staked_amount as u128) as u64)
}

/// Royalty in percent on `amount`, as this module's error type.
fn royalty_of(royalty: u8, amount: u64) -> (r: Result<u64, StakingError>)
    ensures
        percent_of(royalty as int, amount as int) > amount ==> r == Err::<u64, _>(
            StakingError::Overflow,
        ),
        percent_of(royalty as int, amount as int) <= amount ==> r == Ok::<u64, StakingError>(
            percent_of(royalty as int, amount as int) as u64,
        ),
{
    match calc_royalty_amount(royalty, amount) {
        Ok(v) => if v > amount {
            Err(StakingError::Overflow)
        } else {
            Ok(v)
        },
        Err(_) => Err(StakingError::Overflow),
    }
}

/// Checks on a stake request: the royalty and the net amount staked.
pub open spec fn stake_outcome(info: StakingInfo, user: UserInfo, amount: u64) -> Result<(u64, u64), StakingError> {
    if amount < info.min_stake_amount {
        Err(StakingError::MinStakeAmountExceeded)
    } else if user.amount != 0 {
        Err(StakingError::AdditionalStakeNotAllowed)
    } else if percent_of(info.royalty as int, amount as int) > amount {
        Err(StakingError::Overflow)
    } else if info.total_staked + (amount - percent_of(info.royalty as int, amount as int)) > u64::MAX {
        Err(StakingError::Overflow)
    } else {
        let royalty = percent_of(info.royalty as int, amount as int);
        Ok((royalty as u64, (amount - royalty) as u64))
    }
}

/// Checks on a withdrawal: the interest paid (capped by the balance of the
/// interest fund) and the hold penalty (`None` once the hold period has passed).
pub open spec fn withdraw_outcome(info: StakingInfo, user: UserInfo, staking_fund_balance: u64, now: i64) -> Result<
    (u64, Option<u64>),
    StakingError,
> {
    if user.amount == 0 {
        Err(StakingError::NothingToWithdraw)
    } else {
        match reward_spec(
            info.epoch_period_days,
            info.start_time,
            info.apr_start,
            info.apr_step,
            info.apr_end,
            user.amount,
            user.stake_time,
            now,
        ) {
            Err(e) => Err(e),
            Ok(reward) => {
                let paid = if reward <= staking_fund_balance { reward } else { staking_fund_balance };
                if info.total_staked < user.amount {
                    Err(StakingError::Overflow)
                } else {
                    match is_withdraw_royalty_spec(now, user.stake_time, info.hold_period_days) {
                        Err(e) => Err(e),
                        Ok(false) => Ok((paid, None)),
                        Ok(true) => if percent_of(info.hold_royalty as int, user.amount as int) > user.amount {
                            Err(StakingError::Overflow)
                        } else {
                            Ok((paid, Some(percent_of(info.hold_royalty as int, user.amount as int) as u64)))
                        },
                    }
                }
            },
        }
    }
}

/// The transfers of a withdrawal: the hold penalty (if owed) from the
/// treasury to the accumulative fund, the interest from the interest fund
/// to the user, and the rest of the principal from the treasury to the user.
pub open spec fn withdraw_transfers(info: StakingInfo, user_wallet: AccountId, amount: u64, paid: u64, penalty: Option<u64>) -> Seq<Transfer> {
    let interest = Transfer { from: info.staking_fund, to: user_wallet, authority: info.staking_fund_auth, amount: paid };
    match penalty {
        Some(fee) => seq![
            Transfer { from: info.treasury, to: info.accumulative_fund, authority: info.treasury_auth, amount: fee },
            interest,
            Transfer { from: info.treasury, to: user_wallet, authority: info.treasury_auth, amount: (amount - fee) as u64 },
        ],
        None => seq![
            interest,
            Transfer { from: info.treasury, to: user_wallet, authority: info.treasury_auth, amount },
        ],
    }
}

/// A user stakes `amount` (at least the minimum, with no active stake). The
/// royalty goes to the accumulative fund, the rest to the treasury.
pub fn stake(
    info: &mut StakingInfo,
    user_info: &mut UserInfo,
    user: &AccountId,
    user_ggwp_wallet: &AccountId,
    amount: u64,
    now: i64,
) -> (r: Result<Vec<Transfer>, StakingError>)
    ensures
        match stake_outcome(*old(info), *old(user_info), amount) {
            Err(e) => r == Err::<Vec<Transfer>, _>(e) && *final(info) == *old(info) && *final(user_info) == *old(user_info),
            Ok((royalty, net)) => {
                &&& r is Ok
                &&& r->Ok_0@ == seq![
                    Transfer { from: *user_ggwp_wallet, to: old(info).accumulative_fund, authority: *user, amount: royalty },
                    Transfer { from: *user_ggwp_wallet, to: old(info).treasury, authority: *user, amount: net },
                ]
                &&& *final(user_info) == (UserInfo { is_initialized: true, amount: net, stake_time: now })
                &&& *final(info) == (StakingInfo { total_staked: (old(info).total_staked + net) as u64, ..*old(info) })
            },
        },
{
    if amount < info.min_stake_amount {
        return Err(StakingError::MinStakeAmountExceeded);
    }
    if user_info.amount != 0 {
        return Err(StakingError::AdditionalStakeNotAllowed);
    }
    let royalty = royalty_of(info.royalty, amount)?;
    let net = amount - royalty;
    if info.total_staked > u64::MAX - net {
        return Err(StakingError::Overflow);
    }
    let mut transfers: Vec<Transfer> = Vec::new();
    transfers.push(Transfer::new(*user_ggwp_wallet, info.accumulative_fund, *user, royalty));
    transfers.push(Transfer::new(*user_ggwp_wallet, info.treasury, *user, net));
    info.total_staked = info.total_staked + net;
    *user_info = UserInfo { is_initialized: true, amount: net, stake_time: now };
    assert(transfers@ =~= seq![
        Transfer { from: *user_ggwp_wallet, to: old(info).accumulative_fund, authority: *user, amount: royalty },
        Transfer { from: *user_ggwp_wallet, to: old(info).treasury, authority: *user, amount: net },
    ]);
    Ok(transfers)
}

/// A user withdraws the whole stake with its interest. The interest is paid
/// out of the interest fund, capped by that fund's balance; before the hold
/// period has passed a hold penalty on the principal goes to the
/// accumulative fund.
pub fn withdraw(
    info: &mut StakingInfo,
    user_info: &mut UserInfo,
    user_ggwp_wallet: &AccountId,
    staking_fund_balance: u64,
    now: i64,
) -> (r: Result<Vec<Transfer>, StakingError>)
    ensures
        match withdraw_outcome(*old(info), *old(user_info), staking_fund_balance, now) {
            Err(e) => r == Err::<Vec<Transfer>, _>(e) && *final(info) == *old(info) && *final(user_info) == *old(user_info),
            Ok((paid, penalty)) => {
                &&& r is Ok
                &&& r->Ok_0@ == withdraw_transfers(*old(info), *user_ggwp_wallet, old(user_info).amount, paid, penalty)
                &&& *final(user_info) == (UserInfo { amount: 0, stake_time: 0, ..*old(user_info) })
                &&& *final(info) == (StakingInfo { total_staked: (old(info).total_staked - old(user_info).amount) as u64, ..*old(info) })
            },
        },
{
    let amount = user_info.amount;
    if amount == 0 {
        return Err(StakingError::NothingToWithdraw);
    }
    let reward = calc_user_reward_amount(
        info.epoch_period_days,
        info.start_time,
        info.apr_start,
        info.apr_step,
        info.apr_end,
        amount,
        user_info.stake_time,
        now,
    )?;
    let paid = if reward <= staking_fund_balance {
        reward
    } else {
        staking_fund_balance
    };
    if info.total_staked < amount {
        return Err(StakingError::Overflow);
    }
    let early = is_withdraw_royalty(now, user_info.stake_time, info.hold_period_days)?;
    let fee: u64 = if early {
        royalty_of(info.hold_royalty, amount)?
    } else {
        0
    };
    let mut transfers: Vec<Transfer> = Vec::new();
    if early {
        transfers.push(Transfer::new(info.treasury, info.accumulative_fund, info.treasury_auth, fee));
    }
    transfers.push(Transfer::new(info.staking_fund, *user_ggwp_wallet, info.staking_fund_auth, paid));
    transfers.push(Transfer::new(info.treasury, *user_ggwp_wallet, info.treasury_auth, amount - fee));
    info.total_staked = info.total_staked - amount;
    user_info.amount = 0;
    user_info.stake_time = 0;
    proof {
        if early {
            assert(transfers@ =~= withdraw_transfers(*old(info), *user_ggwp_wallet, amount, paid, Some(fee)));
        } else {
            assert(transfers@ =~= withdraw_transfers(*old(info), *user_ggwp_wallet, amount, paid, None));
        }
    }
    Ok(transfers)
}

/// Sets up a stake vault whose epochs start at `now`. Derives the scoped
/// authorities that own the interest fund and the treasury.
pub fn initialize(
    accounts: &StakingAccounts,
    update_auth: AccountId,
    params: StakingParams,
    now: i64,
) -> (r: Result<StakingInfo, StakingError>)
    ensures
        params.epoch_period_days == 0 ==> r == Err::<StakingInfo, _>(StakingError::InvalidEpochPeriodDays),
        params.epoch_period_days != 0 && params.min_stake_amount == 0 ==> r == Err::<StakingInfo, _>(
            StakingError::InvalidMinStakeAmount,
        ),
        params.epoch_period_days != 0 && params.min_stake_amount != 0 && params.hold_period_days == 0
            ==> r == Err::<StakingInfo, _>(StakingError::InvalidHoldPeriodDays),
        params.epoch_period_days != 0 && params.min_stake_amount != 0 && params.hold_period_days != 0
            && !(0 < params.hold_royalty <= 100) ==> r == Err::<StakingInfo, _>(StakingError::InvalidHoldRoyalty),
        params.epoch_period_days != 0 && params.min_stake_amount != 0 && params.hold_period_days != 0
            && 0 < params.hold_royalty <= 100 && !(0 < params.royalty <= 100) ==> r == Err::<StakingInfo, _>(
            StakingError::InvalidRoyalty,
        ),
        params.epoch_period_days != 0 && params.min_stake_amount != 0 && params.hold_period_days != 0
            && 0 < params.hold_royalty <= 100 && 0 < params.royalty <= 100 && (params.apr_start == 0
            || params.apr_step == 0 || params.apr_end == 0) ==> r == Err::<StakingInfo, _>(StakingError::InvalidAPR),
        r is Ok <==> (params.epoch_period_days != 0 && params.min_stake_amount != 0
            && params.hold_period_days != 0 && 0 < params.hold_royalty <= 100 && 0 < params.royalty <= 100
            && params.apr_start != 0 && params.apr_step != 0 && params.apr_end != 0
            && authority_of(STAKING_FUND_AUTH_SEED.spec_bytes(), seq![accounts.staking_info], accounts.program_id@) is Some
            && authority_of(TREASURY_AUTH_SEED.spec_bytes(), seq![accounts.staking_info], accounts.program_id@) is Some),
        r matches Ok(s) ==> {
            &&& s.wf()
            &&& s.admin == accounts.admin
            &&& s.update_auth == update_auth
            &&& s.ggwp_token == accounts.ggwp_token
            &&& s.accumulative_fund == accounts.accumulative_fund
            &&& s.staking_fund == accounts.staking_fund
            &&& s.treasury == accounts.treasury
            &&& Some(s.staking_fund_auth@) == authority_of(STAKING_FUND_AUTH_SEED.spec_bytes(), seq![accounts.staking_info], accounts.program_id@)
            &&& Some(s.treasury_auth@) == authority_of(TREASURY_AUTH_SEED.spec_bytes(), seq![accounts.staking_info], accounts.program_id@)
            &&& s.total_staked == 0
            &&& s.start_time == now
            &&& s.epoch == 1
            &&& s.epoch_period_days == params.epoch_period_days
            &&& s.min_stake_amount == params.min_stake_amount
            &&& s.hold_period_days == params.hold_period_days
            &&& s.hold_royalty == params.hold_royalty
            &&& s.royalty == params.royalty
            &&& s.apr_start == params.apr_start
            &&& s.apr_step == params.apr_step
            &&& s.apr_end == params.apr_end
        },
{
    if params.epoch_period_days == 0 {
        return Err(StakingError::InvalidEpochPeriodDays);
    }
    if params.min_stake_amount == 0 {
        return Err(StakingError::InvalidMinStakeAmount);
    }
    if params.hold_period_days == 0 {
        return Err(StakingError::InvalidHoldPeriodDays);
    }
    if params.hold_royalty == 0 || params.hold_royalty > 100 {
        return Err(StakingError::InvalidHoldRoyalty);
    }
    if params.royalty == 0 || params.royalty > 100 {
        return Err(StakingError::InvalidRoyalty);
    }
    if params.apr_start == 0 || params.apr_step == 0 || params.apr_end == 0 {
        return Err(StakingError::InvalidAPR);
    }
    let mut keys: Vec<AccountId> = Vec::new();
    keys.push(accounts.staking_info);
    assert(keys@ =~= seq![accounts.staking_info]);
    let staking_fund_auth = match derive_authority(STAKING_FUND_AUTH_SEED, &keys, &accounts.program_id) {
        Some(a) => a,
        None => {
            return Err(StakingError::InvalidStakingFundOwner);
        },
    };
    let treasury_auth = match derive_authority(TREASURY_AUTH_SEED, &keys, &accounts.program_id) {
        Some(a) => a,
        None => {
            return Err(StakingError::InvalidTreasuryOwner);
        },
    };
    Ok(
        StakingInfo {
            admin: accounts.admin,
            update_auth,
            ggwp_token: accounts.ggwp_token,
            accumulative_fund: accounts.accumulative_fund,
            staking_fund: accounts.staking_fund,
            staking_fund_auth,
            treasury: accounts.treasury,
            treasury_auth,
            total_staked: 0,
            start_time: now,
            epoch: 1,
            epoch_period_days: params.epoch_period_days,
            min_stake_amount: params.min_stake_amount,
            hold_period_days: params.hold_period_days,
            hold_royalty: params.hold_royalty,
            royalty: params.royalty,
            apr_start: params.apr_start,
            apr_step: params.apr_step,
            apr_end: params.apr_end,
        },
    )
}

/// The admin hands the admin role to `admin`.
pub fn update_admin(info: &mut StakingInfo, authority: &AccountId, admin: AccountId) -> (r: Result<(), StakingError>)
    ensures
        r is Ok <==> authority@ == old(info).admin@,
        r is Err ==> r == Err::<(), _>(StakingError::AccessDenied) && *final(info) == *old(info),
        r is Ok ==> *final(info) == (StakingInfo { admin, ..*old(info) }),
{
    if !authority.same(&info.admin) {
        return Err(StakingError::AccessDenied);
    }
    info.admin = admin;
    Ok(())
}

/// The admin sets a new update authority.
pub fn set_update_authority(info: &mut StakingInfo, authority: &AccountId, update_auth: AccountId) -> (r: Result<(), StakingError>)
    ensures
        r is Ok <==> authority@ == old(info).admin@,
        r is Err ==> r == Err::<(), _>(StakingError::AccessDenied) && *final(info) == *old(info),
        r is Ok ==> *final(info) == (StakingInfo { update_auth, ..*old(info) }),
{
    if !authority.same(&info.admin) {
        return Err(StakingError::AccessDenied);
    }
    info.update_auth = update_auth;
    Ok(())
}

/// The update authority sets the epoch length (non-zero, in days).
pub fn update_epoch_period_days(info: &mut StakingInfo, authority: &AccountId, epoch_period_days: u16) -> (r: Result<(), StakingError>)
    ensures
        epoch_period_days == 0 ==> r == Err::<(), _>(StakingError::InvalidEpochPeriodDays),
        epoch_period_days != 0 && authority@ != old(info).update_auth@ ==> r == Err::<(), _>(StakingError::AccessDenied),
        r is Err ==> *final(info) == *old(info),
        r is Ok <==> epoch_period_days != 0 && authority@ == old(info).update_auth@,
        r is Ok ==> *final(info) == (StakingInfo { epoch_period_days, ..*old(info) }),
{
    if epoch_period_days == 0 {
        return Err(StakingError::InvalidEpochPeriodDays);
    }
    if !authority.same(&info.update_auth) {
        return Err(StakingError::AccessDenied);
    }
    info.epoch_period_days = epoch_period_days;
    Ok(())
}

/// The update authority sets the minimum stake (non-zero).
pub fn update_min_stake_amount(info: &mut StakingInfo, authority: &AccountId, min_stake_amount: u64) -> (r: Result<(), StakingError>)
    ensures
        min_stake_amount == 0 ==> r == Err::<(), _>(StakingError::InvalidMinStakeAmount),
        min_stake_amount != 0 && authority@ != old(info).update_auth@ ==> r == Err::<(), _>(StakingError::AccessDenied),
        r is Err ==> *final(info) == *old(info),
        r is Ok <==> min_stake_amount != 0 && authority@ == old(info).update_auth@,
        r is Ok ==> *final(info) == (StakingInfo { min_stake_amount, ..*old(info) }),
{
    if min_stake_amount == 0 {
        return Err(StakingError::InvalidMinStakeAmount);
    }
    if !authority.same(&info.update_auth) {
        return Err(StakingError::AccessDenied);
    }
    info.min_stake_amount = min_stake_amount;
    Ok(())
}

/// The update authority sets the hold period (non-zero, in days).
pub fn update_hold_period_days(info: &mut StakingInfo, authority: &AccountId, hold_period_days: u16) -> (r: Result<(), StakingError>)
    ensures
        hold_period_days == 0 ==> r == Err::<(), _>(StakingError::InvalidHoldPeriodDays),
        hold_period_days != 0 && authority@ != old(info).update_auth@ ==> r == Err::<(), _>(StakingError::AccessDenied),
        r is Err ==> *final(info) == *old(info),
        r is Ok <==> hold_period_days != 0 && authority@ == old(info).update_auth@,
        r is Ok ==> *final(info) == (StakingInfo { hold_period_days, ..*old(info) }),
{
    if hold_period_days == 0 {
        return Err(StakingError::InvalidHoldPeriodDays);
    }
    if !authority.same(&info.update_auth) {
        return Err(StakingError::AccessDenied);
    }
    info.hold_period_days = hold_period_days;
    Ok(())
}

/// The update authority sets the hold penalty (1 to 100 percent).
pub fn update_hold_royalty(info: &mut StakingInfo, authority: &AccountId, hold_royalty: u8) -> (r: Result<(), StakingError>)
    ensures
        !(0 < hold_royalty <= 100) ==> r == Err::<(), _>(StakingError::InvalidHoldRoyalty),
        0 < hold_royalty <= 100 && authority@ != old(info).update_auth@ ==> r == Err::<(), _>(StakingError::AccessDenied),
        r is Err ==> *final(info) == *old(info),
        r is Ok <==> 0 < hold_royalty <= 100 && authority@ == old(info).update_auth@,
        r is Ok ==> *final(info) == (StakingInfo { hold_royalty, ..*old(info) }),
{
    if hold_royalty == 0 || hold_royalty > 100 {
        return Err(StakingError::InvalidHoldRoyalty);
    }
    if !authority.same(&info.update_auth) {
        return Err(StakingError::AccessDenied);
    }
    info.hold_royalty = hold_royalty;
    Ok(())
}

/// The update authority sets the entry royalty (1 to 100 percent).
pub fn update_royalty(info: &mut StakingInfo, authority: &AccountId, royalty: u8) -> (r: Result<(), StakingError>)
    ensures
        !(0 < royalty <= 100) ==> r == Err::<(), _>(StakingError::InvalidRoyalty),
        0 < royalty <= 100 && authority@ != old(info).update_auth@ ==> r == Err::<(), _>(StakingError::AccessDenied),
        r is Err ==> *final(info) == *old(info),
        r is Ok <==> 0 < royalty <= 100 && authority@ == old(info).update_auth@,
        r is Ok ==> *final(info) == (StakingInfo { royalty, ..*old(info) }),
{
    if royalty == 0 || royalty > 100 {
        return Err(StakingError::InvalidRoyalty);
    }
    if !authority.same(&info.update_auth) {
        return Err(StakingError::AccessDenied);
    }
    info.royalty = royalty;
    Ok(())
}

} // verus!
