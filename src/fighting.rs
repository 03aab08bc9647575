//! Match session: a paid game attempt per user, with AFK recovery, and the
//! recording and payout of finished games through the reward gate.
use crate::error::ErrorKind;
use crate::freezing::FreezingInfo;
use crate::gpass::{balance_at, burn, burn_spec, spendable_balance, GpassError, GpassSettings, Wallet};
use crate::ids::{authority_of, derive_authority, listed, AccountId};
use crate::params::FightingParams;
use crate::percent::{calc_share_amount, percent_of};
use crate::reward_distribution::{transfer, RewardDistributionError, RewardDistributionInfo};
use crate::token::Transfer;
use vstd::prelude::*;
use vstd::string::{StringExecFns, StringSliceAdditionalSpecFns};

verus! {

pub const GPASS_BURN_AUTH_SEED: &'static str = "gpass_burn_auth";

pub const REWARD_TRANSFER_AUTH_SEED: &'static str = "reward_transfer_auth";

pub const PLAYERS_MAX: usize = 2;

pub const PLAYER_ACTIONS_MAX: usize = 27;

/// Longest action log a finished game may carry.
pub const ACTIONS_VEC_MAX: usize = PLAYER_ACTIONS_MAX * PLAYERS_MAX;

/// Base units per whole token (the token has nine decimals); the daily
/// reward cap is stated in whole tokens.
pub const TOKEN_UNIT: u128 = 1_000_000_000;

#[derive(Clone, Copy, Debug, PartialEq, Eq, Structural)]
pub enum FightingError {
    AccessDenied,
    Overflow,
    InvalidAFKTimeout,
    InvalidRoyaltyValue,
    InvalidGpassBurnAuth,
    InvalidRewardTransferAuth,
    NotEnoughGpass,
    StillInGame,
    UserNotInGame,
    InvalidActionsLogSize,
    GameAlreadyFinalized,
    Gpass(GpassError),
    RewardDistribution(RewardDistributionError),
}

impl FightingError {
    pub open spec fn spec_kind(self) -> ErrorKind {
        match self {
            FightingError::AccessDenied => ErrorKind::AccessDenied,
            FightingError::Overflow => ErrorKind::Overflow,
            FightingError::NotEnoughGpass => ErrorKind::StateConflict,
            FightingError::StillInGame => ErrorKind::StateConflict,
            FightingError::UserNotInGame => ErrorKind::StateConflict,
            FightingError::GameAlreadyFinalized => ErrorKind::StateConflict,
            FightingError::Gpass(e) => e.spec_kind(),
            FightingError::RewardDistribution(e) => e.spec_kind(),
            _ => ErrorKind::InvalidParameter,
        }
    }

    /// The class of this error in the engine-wide taxonomy.
    pub fn kind(&self) -> (r: ErrorKind)
        ensures
            r == self.spec_kind(),
    {
        match self {
            FightingError::AccessDenied => ErrorKind::AccessDenied,
            FightingError::Overflow => ErrorKind::Overflow,
            FightingError::NotEnoughGpass => ErrorKind::StateConflict,
            FightingError::StillInGame => ErrorKind::StateConflict,
            FightingError::UserNotInGame => ErrorKind::StateConflict,
            FightingError::GameAlreadyFinalized => ErrorKind::StateConflict,
            FightingError::Gpass(e) => e.kind(),
            FightingError::RewardDistribution(e) => e.kind(),
            _ => ErrorKind::InvalidParameter,
        }
    }
}

/// Match session settings.
#[derive(Clone, Copy, Debug)]
pub struct FightingSettings {
    pub admin: AccountId,
    pub update_auth: AccountId,
    /// The off-chain validator that reports finished games.
    pub validator: AccountId,
    pub afk_timeout: i64,
    pub reward_coefficient: u32,
    pub gpass_daily_reward_coefficient: u32,
    pub royalty: u8,
    /// Scoped authority of this module, listed as a burner by the ledger.
    pub gpass_burn_auth: AccountId,
    /// Scoped authority of this module, on the reward gate's allow-list.
    pub reward_transfer_auth: AccountId,
}

/// The accounts a match session module is set up with.
#[derive(Clone, Copy, Debug)]
pub struct FightingAccounts {
    pub admin: AccountId,
    pub program_id: AccountId,
    pub fighting_settings: AccountId,
    pub gpass_info: AccountId,
    pub reward_distribution_info: AccountId,
}

/// A user's session state.
#[derive(Clone, Copy, Debug, PartialEq, Eq, Structural)]
pub struct UserFightingInfo {
    pub in_game: bool,
    pub in_game_time: i64,
}

#[derive(Clone, Copy, Debug, PartialEq, Eq, Structural)]
pub enum GameResult {
    Draw,
    Win,
    Loss,
}

impl Default for GameResult {
    fn default() -> (r: GameResult)
        ensures
            r == GameResult::Draw,
    {
        GameResult::Draw
    }
}

#[derive(Clone, Copy, Debug, PartialEq, Eq, Structural)]
pub enum Identity {
    Player,
    Bot,
}

impl Default for Identity {
    fn default() -> (r: Identity)
        ensures
            r == Identity::Player,
    {
        Identity::Player
    }
}

#[derive(Clone, Copy, Debug, PartialEq, Eq, Structural)]
pub enum Action {
    NoAction,
    ArmShort,
    ArmLong,
    LegShortPush,
    LegShort,
    LegLong,
    BlockMain,
    BlockDown,
    MoveRight,
    MoveLeft,
    MoveSit,
    MoveJump,
    MoveSpecial,
    SkillBigGuy,
    SkillDiva,
    SkillExCop,
    SkillBusinessman,
    SkillYakuza,
    SkillInformer,
}

impl Default for Action {
    fn default() -> (r: Action)
        ensures
            r == Action::NoAction,
    {
        Action::NoAction
    }
}

impl GameResult {
    /// The printable name of the value.
    pub fn to_string(&self) -> (r: String)
        ensures
            *self == GameResult::Draw ==> r@ == "GameResult::Draw"@,
            *self == GameResult::Win ==> r@ == "GameResult::Win"@,
            *self == GameResult::Loss ==> r@ == "GameResult::Loss"@,
    {
        let name: &str = match self {
            GameResult::Draw => "GameResult::Draw",
            GameResult::Win => "GameResult::Win",
            GameResult::Loss => "GameResult::Loss",
        };
        String::from_str(name)
    }
}

impl Identity {
    /// The printable name of the value.
    pub fn to_string(&self) -> (r: String)
        ensures
            *self == Identity::Player ==> r@ == "Identity::Player"@,
            *self == Identity::Bot ==> r@ == "Identity::Bot"@,
    {
        let name: &str = match self {
            Identity::Player => "Identity::Player",
            Identity::Bot => "Identity::Bot",
        };
        String::from_str(name)
    }
}

impl Action {
    /// The printable name of the value.
    pub fn to_string(&self) -> (r: String)
        ensures
            *self == Action::NoAction ==> r@ == "Action::None"@,
            *self == Action::ArmShort ==> r@ == "Action::ArmShort"@,
            *self == Action::ArmLong ==> r@ == "Action::ArmLong"@,
            *self == Action::LegShortPush ==> r@ == "Action::LegShortPush"@,
            *self == Action::LegShort ==> r@ == "Action::LegShort"@,
            *self == Action::LegLong ==> r@ == "Action::LegLong"@,
            *self == Action::BlockMain ==> r@ == "Action::BlockMain"@,
            *self == Action::BlockDown ==> r@ == "Action::BlockDown"@,
            *self == Action::MoveRight ==> r@ == "Action::MoveRight"@,
            *self == Action::MoveLeft ==> r@ == "Action::MoveLeft"@,
            *self == Action::MoveSit ==> r@ == "Action::MoveSit"@,
            *self == Action::MoveJump ==> r@ == "Action::MoveJump"@,
            *self == Action::MoveSpecial ==> r@ == "Action::MoveSpecial"@,
            *self == Action::SkillBigGuy ==> r@ == "Action::BigGuy"@,
            *self == Action::SkillDiva ==> r@ == "Action::Diva"@,
            *self == Action::SkillExCop ==> r@ == "Action::ExCop"@,
            *self == Action::SkillBusinessman ==> r@ == "Action::Businessman"@,
            *self == Action::SkillYakuza ==> r@ == "Action::Yakuza"@,
            *self == Action::SkillInformer ==> r@ == "Action::Informer"@,
    {
        let name: &str = match self {
            Action::NoAction => "Action::None",
            Action::ArmShort => "Action::ArmShort",
            Action::ArmLong => "Action::ArmLong",
            Action::LegShortPush => "Action::LegShortPush",
            Action::LegShort => "Action::LegShort",
            Action::LegLong => "Action::LegLong",
            Action::BlockMain => "Action::BlockMain",
            Action::BlockDown => "Action::BlockDown",
            Action::MoveRight => "Action::MoveRight",
            Action::MoveLeft => "Action::MoveLeft",
            Action::MoveSit => "Action::MoveSit",
            Action::MoveJump => "Action::MoveJump",
            Action::MoveSpecial => "Action::MoveSpecial",
            Action::SkillBigGuy => "Action::BigGuy",
            Action::SkillDiva => "Action::Diva",
            Action::SkillExCop => "Action::ExCop",
            Action::SkillBusinessman => "Action::Businessman",
            Action::SkillYakuza => "Action::Yakuza",
            Action::SkillInformer => "Action::Informer",
        };
        String::from_str(name)
    }
}

/// One logged move: who made it and what it was.
#[derive(Clone, Copy, Debug, PartialEq, Eq, Structural)]
pub struct IdentityAction {
    pub who: Identity,
    pub action: Action,
}

/// The immutable record of a finished game.
#[derive(Clone, Debug)]
pub struct GameInfo {
    pub id: u64,
    pub result: GameResult,
    pub actions_log: Vec<IdentityAction>,
}

impl FightingSettings {
    pub open spec fn wf(&self) -> bool {
        &&& self.afk_timeout > 0
        &&& self.royalty <= 100
    }
}

/// The reward of a won game: the pool divided among the active lockers
/// weighted by `reward_coefficient`, capped at `daily_reward` whole tokens
/// divided by `daily_reward_coefficient`. A zero divisor makes that bound
/// unlimited, except that an empty pool pays nothing.
pub open spec fn game_reward_spec(
    pool: u64,
    users: u64,
    reward_coefficient: u32,
    daily_reward: u64,
    daily_reward_coefficient: u32,
) -> Result<u64, FightingError> {
    let denom = (users as int) * (reward_coefficient as int);
    let base: Option<int> = if denom == 0 {
        if pool == 0 {
            Some(0)
        } else {
            None
        }
    } else {
        Some((pool as int) / denom)
    };
    let cap: Option<int> = if daily_reward_coefficient == 0 {
        None
    } else {
        Some((daily_reward as int) * (TOKEN_UNIT as int) / (daily_reward_coefficient as int))
    };
    let reward: Option<int> = match base {
        Some(b) => match cap {
            Some(c) => Some(
                if b > c {
                    c
                } else {
                    b
                },
            ),
            None => Some(b),
        },
        None => cap,
    };
    match reward {
        Some(v) => if v <= u64::MAX {
            Ok(v as u64)
        } else {
            Err(FightingError::Overflow)
        },
        None => Err(FightingError::Overflow),
    }
}

/// Whether `games` already holds a record with id `id`.
pub open spec fn recorded(games: Seq<GameInfo>, id: u64) -> bool {
    exists|i: int| 0 <= i < games.len() && #[trigger] games[i].id == id
}

/// Calculates the reward of a won game (see `game_reward_spec`).
pub fn calc_reward_amount(
    play_to_earn_fund_amount: u64,
    freezed_users: u64,
    reward_coefficient: u32,
    gpass_daily_reward: u64,
    gpass_daily_reward_coefficient: u32,
) -> (r: Result<u64, FightingError>)
    ensures
        r == game_reward_spec(
            play_to_earn_fund_amount,
            freezed_users,
            reward_coefficient,
            gpass_daily_reward,
            gpass_daily_reward_coefficient,
        ),
{
    proof {
        assert((freezed_users as int) * (reward_coefficient as int) <= (u64::MAX as int) * (
        u32::MAX as int)) by (nonlinear_arith)
            requires
                freezed_users <= u64::MAX,
                reward_coefficient <= u32::MAX,
        ;
        assert((gpass_daily_reward as int) * (TOKEN_UNIT as int) <= (u64::MAX as int) * (
        TOKEN_UNIT as int)) by (nonlinear_arith)
            requires
                gpass_daily_reward <= u64::MAX,
        ;
    }
    let denom: u128 = freezed_users as u128 * reward_coefficient as u128;
    let base: Option<u128> = if denom == 0 {
        if play_to_earn_fund_amount == 0 {
            Some(0)
        } else {
            None
        }
    } else {
        Some(play_to_earn_fund_amount as u128 / denom)
    };
    let cap: Option<u128> = if gpass_daily_reward_coefficient == 0 {
        None
    } else {
        Some(gpass_daily_reward as u128 * TOKEN_UNIT / gpass_daily_reward_coefficient as u128)
    };
    let reward: Option<u128> = match base {
        Some(b) => match cap {
            Some(c) => Some(
                if b > c {
                    c
                } else {
                    b
                },
            ),
            None => Some(b),
        },
        None => cap,
    };
    match reward {
        Some(v) => if v <= u64::MAX as u128 {
            Ok(v as u64)
        } else {
            Err(FightingError::Overflow)
        },
        None => Err(FightingError::Overflow),
    }
}

/// Sets up the match session module: the AFK timeout must be positive and
/// the royalty at most 100 percent. Derives the module's two scoped
/// authorities: its burner on the ledger and its caller id for reward payouts.
pub fn initialize(accounts: &FightingAccounts, update_auth: AccountId, params: FightingParams) -> (r:
    Result<FightingSettings, FightingError>)
    ensures
        params.afk_timeout <= 0 ==> r == Err::<FightingSettings, _>(FightingError::InvalidAFKTimeout),
        params.afk_timeout > 0 && params.royalty > 100 ==> r == Err::<FightingSettings, _>(
            FightingError::InvalidRoyaltyValue,
        ),
        r is Ok <==> (params.afk_timeout > 0 && params.royalty <= 100 && authority_of(
            GPASS_BURN_AUTH_SEED.spec_bytes(),
            seq![accounts.fighting_settings, accounts.gpass_info],
            accounts.program_id@,
        ) is Some && authority_of(
            REWARD_TRANSFER_AUTH_SEED.spec_bytes(),
            seq![accounts.fighting_settings, accounts.reward_distribution_info],
            accounts.program_id@,
        ) is Some),
        r matches Ok(s) ==> {
            &&& s.wf()
            &&& s.admin == accounts.admin
            &&& s.update_auth == update_auth
            &&& s.validator == params.validator
            &&& s.afk_timeout == params.afk_timeout
            &&& s.reward_coefficient == params.reward_coefficient
            &&& s.gpass_daily_reward_coefficient == params.gpass_daily_reward_coefficient
            &&& s.royalty == params.royalty
            &&& Some(s.gpass_burn_auth@) == authority_of(
                GPASS_BURN_AUTH_SEED.spec_bytes(),
                seq![accounts.fighting_settings, accounts.gpass_info],
                accounts.program_id@,
            )
            &&& Some(s.reward_transfer_auth@) == authority_of(
                REWARD_TRANSFER_AUTH_SEED.spec_bytes(),
                seq![accounts.fighting_settings, accounts.reward_distribution_info],
                accounts.program_id@,
            )
        },
{
    if params.afk_timeout <= 0 {
        return Err(FightingError::InvalidAFKTimeout);
    }
    if params.royalty > 100 {
        return Err(FightingError::InvalidRoyaltyValue);
    }
    let mut keys: Vec<AccountId> = Vec::new();
    keys.push(accounts.fighting_settings);
    keys.push(accounts.gpass_info);
    assert(keys@ =~= seq![accounts.fighting_settings, accounts.gpass_info]);
    let gpass_burn_auth = match derive_authority(GPASS_BURN_AUTH_SEED, &keys, &accounts.program_id) {
        Some(a) => a,
        None => {
            return Err(FightingError::InvalidGpassBurnAuth);
        },
    };
    let mut keys: Vec<AccountId> = Vec::new();
    keys.push(accounts.fighting_settings);
    keys.push(accounts.reward_distribution_info);
    assert(keys@ =~= seq![accounts.fighting_settings, accounts.reward_distribution_info]);
    let reward_transfer_auth = match derive_authority(
        REWARD_TRANSFER_AUTH_SEED,
        &keys,
        &accounts.program_id,
    ) {
        Some(a) => a,
        None => {
            return Err(FightingError::InvalidRewardTransferAuth);
        },
    };
    Ok(
        FightingSettings {
            admin: accounts.admin,
            update_auth,
            validator: params.validator,
            afk_timeout: params.afk_timeout,
            reward_coefficient: params.reward_coefficient,
            gpass_daily_reward_coefficient: params.gpass_daily_reward_coefficient,
            royalty: params.royalty,
            gpass_burn_auth,
            reward_transfer_auth,
        },
    )
}

/// A user starts a game. A session left open for at least the AFK timeout
/// is closed instead, at no charge, and no new one starts in that call; a
/// younger open session is refused. Otherwise the user must hold credit:
/// one unit is burned through the module's burner authority and the
/// session starts at `now`.
pub fn start_game(
    settings: &FightingSettings,
    user_info: &mut UserFightingInfo,
    gpass_info: &mut GpassSettings,
    user_gpass_wallet: &mut Wallet,
    now: i64,
) -> (r: Result<(), FightingError>)
    ensures
        r is Err ==> *final(user_info) == *old(user_info) && *final(gpass_info) == *old(gpass_info)
            && *final(user_gpass_wallet) == *old(user_gpass_wallet),
        if old(user_info).in_game && old(user_info).in_game_time != 0 {
            let spent = now - old(user_info).in_game_time;
            &&& (spent > i64::MAX || spent < i64::MIN) ==> r == Err::<(), _>(FightingError::Overflow)
            &&& i64::MIN <= spent < settings.afk_timeout ==> r == Err::<(), _>(
                FightingError::StillInGame,
            )
            &&& settings.afk_timeout <= spent <= i64::MAX ==> r is Ok && *final(user_info) == (
            UserFightingInfo { in_game: false, ..*old(user_info) }) && *final(gpass_info) == *old(
                gpass_info,
            ) && *final(user_gpass_wallet) == *old(user_gpass_wallet)
        } else if balance_at(*old(user_gpass_wallet), old(gpass_info).burn_period, now) == 0 {
            r == Err::<(), _>(FightingError::NotEnoughGpass)
        } else {
            match burn_spec(
                *old(gpass_info),
                *old(user_gpass_wallet),
                settings.gpass_burn_auth@,
                1,
                now,
            ) {
                Err(e) => r == Err::<(), _>(FightingError::Gpass(e)),
                Ok((t, w)) => {
                    &&& r is Ok
                    &&& final(gpass_info).total_amount == t
                    &&& *final(user_gpass_wallet) == w
                    &&& final(gpass_info).same_config(old(gpass_info))
                    &&& *final(user_info) == (UserFightingInfo { in_game: true, in_game_time: now })
                },
            }
        },
{
    if user_info.in_game && user_info.in_game_time != 0 {
        let spent: i128 = now as i128 - user_info.in_game_time as i128;
        if spent > i64::MAX as i128 || spent < i64::MIN as i128 {
            return Err(FightingError::Overflow);
        }
        if spent < settings.afk_timeout as i128 {
            return Err(FightingError::StillInGame);
        }
        user_info.in_game = false;
        return Ok(());
    }
    if spendable_balance(gpass_info, user_gpass_wallet, now) == 0 {
        return Err(FightingError::NotEnoughGpass);
    }
    match burn(gpass_info, user_gpass_wallet, &settings.gpass_burn_auth, 1, now) {
        Ok(()) => {},
        Err(e) => {
            return Err(FightingError::Gpass(e));
        },
    }
    *user_info = UserFightingInfo { in_game: true, in_game_time: now };
    Ok(())
}

/// What a validated, finished game pays: nothing unless won; otherwise the
/// reward and the royalty withheld from it.
pub open spec fn payout_spec(
    settings: FightingSettings,
    game_result: GameResult,
    play_to_earn_fund_amount: u64,
    freezing_info: FreezingInfo,
) -> Result<Option<(u64, u64)>, FightingError> {
    if game_result != GameResult::Win {
        Ok(None)
    } else {
        match game_reward_spec(
            play_to_earn_fund_amount,
            freezing_info.current_users_freezed,
            settings.reward_coefficient,
            freezing_info.daily_gpass_reward,
            settings.gpass_daily_reward_coefficient,
        ) {
            Err(e) => Err(e),
            Ok(reward) => if reward == 0 {
                Ok(None)
            } else if percent_of(settings.royalty as int, reward as int) > reward {
                Err(FightingError::Overflow)
            } else {
                Ok(Some((reward, percent_of(settings.royalty as int, reward as int) as u64)))
            },
        }
    }
}

/// The validator reports a finished game of a user in session. The game is
/// recorded once under its id. A won game pays the reward, less the
/// royalty, to the user and the royalty to the accumulative fund: two
/// transfers out of the reward gate's fund, made with the module's caller
/// id. The session ends.
pub fn finalize_game(
    settings: &FightingSettings,
    validator: &AccountId,
    user_info: &mut UserFightingInfo,
    games: &mut Vec<GameInfo>,
    game_id: u64,
    game_result: GameResult,
    actions_log: Vec<IdentityAction>,
    play_to_earn_fund_amount: u64,
    freezing_info: &FreezingInfo,
    reward_distribution_info: &RewardDistributionInfo,
    user_ggwp_wallet: &AccountId,
    accumulative_fund: &AccountId,
) -> (r: Result<Vec<Transfer>, FightingError>)
    ensures
        validator@ != settings.validator@ ==> r == Err::<Vec<Transfer>, _>(
            FightingError::AccessDenied,
        ),
        validator@ == settings.validator@ && !old(user_info).in_game ==> r == Err::<
            Vec<Transfer>,
            _,
        >(FightingError::UserNotInGame),
        validator@ == settings.validator@ && old(user_info).in_game && (actions_log@.len() == 0
            || actions_log@.len() > ACTIONS_VEC_MAX) ==> r == Err::<Vec<Transfer>, _>(
            FightingError::InvalidActionsLogSize,
        ),
        validator@ == settings.validator@ && old(user_info).in_game && 0 < actions_log@.len()
            <= ACTIONS_VEC_MAX && recorded(old(games)@, game_id) ==> r == Err::<Vec<Transfer>, _>(
            FightingError::GameAlreadyFinalized,
        ),
        validator@ == settings.validator@ && old(user_info).in_game && 0 < actions_log@.len()
            <= ACTIONS_VEC_MAX && !recorded(old(games)@, game_id) ==> match payout_spec(
            *settings,
            game_result,
            play_to_earn_fund_amount,
            *freezing_info,
        ) {
            Err(e) => r == Err::<Vec<Transfer>, _>(e),
            Ok(None) => r matches Ok(ts) && ts@.len() == 0,
            Ok(Some((reward, royalty))) => if !listed(
                reward_distribution_info.transfer_auth_list@,
                settings.reward_transfer_auth@,
            ) {
                r == Err::<Vec<Transfer>, _>(
                    FightingError::RewardDistribution(
                        RewardDistributionError::InvalidTransferAuthority,
                    ),
                )
            } else {
                r matches Ok(ts) && ts@ == seq![
                    Transfer {
                        from: reward_distribution_info.play_to_earn_fund,
                        to: *user_ggwp_wallet,
                        authority: reward_distribution_info.play_to_earn_fund_auth,
                        amount: (reward - royalty) as u64,
                    },
                    Transfer {
                        from: reward_distribution_info.play_to_earn_fund,
                        to: *accumulative_fund,
                        authority: reward_distribution_info.play_to_earn_fund_auth,
                        amount: royalty,
                    },
                ]
            },
        },
        r is Err ==> *final(user_info) == *old(user_info) && final(games)@ == old(games)@,
        r is Ok ==> {
            &&& *final(user_info) == (UserFightingInfo { in_game: false, ..*old(user_info) })
            &&& final(games)@.len() == old(games)@.len() + 1
            &&& final(games)@.subrange(0, old(games)@.len() as int) == old(games)@
            &&& final(games)@.last().id == game_id
            &&& final(games)@.last().result == game_result
            &&& final(games)@.last().actions_log@ == actions_log@
        },
{
    if !validator.same(&settings.validator) {
        return Err(FightingError::AccessDenied);
    }
    if !user_info.in_game {
        return Err(FightingError::UserNotInGame);
    }
    if actions_log.len() == 0 || actions_log.len() > ACTIONS_VEC_MAX {
        return Err(FightingError::InvalidActionsLogSize);
    }
    let mut i: usize = 0;
    while i < games.len()
        invariant
            i <= games@.len(),
            validator@ == settings.validator@,
            user_info.in_game,
            0 < actions_log@.len() <= ACTIONS_VEC_MAX,
            forall|k: int| 0 <= k < i ==> #[trigger] games@[k].id != game_id,
        decreases games@.len() - i,
    {
        if games[i].id == game_id {
            return Err(FightingError::GameAlreadyFinalized);
        }
        i = i + 1;
    }
    let mut transfers: Vec<Transfer> = Vec::new();
    if game_result == GameResult::Win {
        let reward = calc_reward_amount(
            play_to_earn_fund_amount,
            freezing_info.current_users_freezed,
            settings.reward_coefficient,
            freezing_info.daily_gpass_reward,
            settings.gpass_daily_reward_coefficient,
        )?;
        if reward > 0 {
            let royalty = match calc_share_amount(settings.royalty, reward) {
                Ok(v) => v,
                Err(_) => {
                    return Err(FightingError::Overflow);
                },
            };
            if royalty > reward {
                return Err(FightingError::Overflow);
            }
            let to_user = match transfer(
                reward_distribution_info,
                &settings.reward_transfer_auth,
                user_ggwp_wallet,
                reward - royalty,
            ) {
                Ok(t) => t,
                Err(e) => {
                    return Err(FightingError::RewardDistribution(e));
                },
            };
            let to_fund = match transfer(
                reward_distribution_info,
                &settings.reward_transfer_auth,
                accumulative_fund,
                royalty,
            ) {
                Ok(t) => t,
                Err(e) => {
                    return Err(FightingError::RewardDistribution(e));
                },
            };
            transfers.push(to_user);
            transfers.push(to_fund);
        }
    }
    let ghost before = games@;
    games.push(GameInfo { id: game_id, result: game_result, actions_log });
    assert(games@.subrange(0, before.len() as int) =~= before);
    user_info.in_game = false;
    Ok(transfers)
}

/// The admin hands the admin role to `admin`.
pub fn update_admin(settings: &mut FightingSettings, authority: &AccountId, admin: AccountId) -> (r:
    Result<(), FightingError>)
    ensures
        r is Ok <==> authority@ == old(settings).admin@,
        r is Err ==> r == Err::<(), _>(FightingError::AccessDenied) && *final(settings) == *old(
            settings,
        ),
        r is Ok ==> *final(settings) == (FightingSettings { admin, ..*old(settings) }),
{
    if !authority.same(&settings.admin) {
        return Err(FightingError::AccessDenied);
    }
    settings.admin = admin;
    Ok(())
}

/// The admin sets a new update authority.
pub fn set_update_authority(
    settings: &mut FightingSettings,
    authority: &AccountId,
    update_auth: AccountId,
) -> (r: Result<(), FightingError>)
    ensures
        r is Ok <==> authority@ == old(settings).admin@,
        r is Err ==> r == Err::<(), _>(FightingError::AccessDenied) && *final(settings) == *old(
            settings,
        ),
        r is Ok ==> *final(settings) == (FightingSettings { update_auth, ..*old(settings) }),
{
    if !authority.same(&settings.admin) {
        return Err(FightingError::AccessDenied);
    }
    settings.update_auth = update_auth;
    Ok(())
}

/// The update authority sets the validator.
pub fn update_validator(settings: &mut FightingSettings, authority: &AccountId, validator: AccountId) -> (r:
    Result<(), FightingError>)
    ensures
        r is Ok <==> authority@ == old(settings).update_auth@,
        r is Err ==> r == Err::<(), _>(FightingError::AccessDenied) && *final(settings) == *old(
            settings,
        ),
        r is Ok ==> *final(settings) == (FightingSettings { validator, ..*old(settings) }),
{
    if !authority.same(&settings.update_auth) {
        return Err(FightingError::AccessDenied);
    }
    settings.validator = validator;
    Ok(())
}

/// The update authority sets the AFK timeout (positive, in seconds).
pub fn update_afk_timeout(settings: &mut FightingSettings, authority: &AccountId, afk_timeout: i64) -> (r:
    Result<(), FightingError>)
    ensures
        authority@ != old(settings).update_auth@ ==> r == Err::<(), _>(FightingError::AccessDenied),
        authority@ == old(settings).update_auth@ && afk_timeout <= 0 ==> r == Err::<(), _>(
            FightingError::InvalidAFKTimeout,
        ),
        r is Err ==> *final(settings) == *old(settings),
        r is Ok <==> authority@ == old(settings).update_auth@ && afk_timeout > 0,
        r is Ok ==> *final(settings) == (FightingSettings { afk_timeout, ..*old(settings) }),
{
    if !authority.same(&settings.update_auth) {
        return Err(FightingError::AccessDenied);
    }
    if afk_timeout <= 0 {
        return Err(FightingError::InvalidAFKTimeout);
    }
    settings.afk_timeout = afk_timeout;
    Ok(())
}

/// The update authority sets the reward coefficient.
pub fn update_reward_coefficient(
    settings: &mut FightingSettings,
    authority: &AccountId,
    reward_coefficient: u32,
) -> (r: Result<(), FightingError>)
    ensures
        r is Ok <==> authority@ == old(settings).update_auth@,
        r is Err ==> r == Err::<(), _>(FightingError::AccessDenied) && *final(settings) == *old(
            settings,
        ),
        r is Ok ==> *final(settings) == (FightingSettings { reward_coefficient, ..*old(settings) }),
{
    if !authority.same(&settings.update_auth) {
        return Err(FightingError::AccessDenied);
    }
    settings.reward_coefficient = reward_coefficient;
    Ok(())
}

/// The update authority sets the coefficient of the daily reward cap.
pub fn update_gpass_daily_reward_coefficient(
    settings: &mut FightingSettings,
    authority: &AccountId,
    gpass_daily_reward_coefficient: u32,
) -> (r: Result<(), FightingError>)
    ensures
        r is Ok <==> authority@ == old(settings).update_auth@,
        r is Err ==> r == Err::<(), _>(FightingError::AccessDenied) && *final(settings) == *old(
            settings,
        ),
        r is Ok ==> *final(settings) == (FightingSettings {
            gpass_daily_reward_coefficient,
            ..*old(settings)
        }),
{
    if !authority.same(&settings.update_auth) {
        return Err(FightingError::AccessDenied);
    }
    settings.gpass_daily_reward_coefficient = gpass_daily_reward_coefficient;
    Ok(())
}

/// The update authority sets the royalty on rewards (1 to 100 percent).
pub fn update_royalty(settings: &mut FightingSettings, authority: &AccountId, royalty: u8) -> (r:
    Result<(), FightingError>)
    ensures
        authority@ != old(settings).update_auth@ ==> r == Err::<(), _>(FightingError::AccessDenied),
        authority@ == old(settings).update_auth@ && !(0 < royalty <= 100) ==> r == Err::<(), _>(
            FightingError::InvalidRoyaltyValue,
        ),
        r is Err ==> *final(settings) == *old(settings),
        r is Ok <==> authority@ == old(settings).update_auth@ && 0 < royalty <= 100,
        r is Ok ==> *final(settings) == (FightingSettings { royalty, ..*old(settings) }),
{
    if !authority.same(&settings.update_auth) {
        return Err(FightingError::AccessDenied);
    }
    if royalty == 0 || royalty > 100 {
        return Err(FightingError::InvalidRoyaltyValue);
    }
    settings.royalty = royalty;
    Ok(())
}

} // verus!
