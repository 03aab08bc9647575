use ggwp_ledger::distribution::{self, DistributionAccounts, DistributionError};
use ggwp_ledger::error::ErrorKind;
use ggwp_ledger::fighting::{
    self, Action, FightingAccounts, FightingError, GameInfo, GameResult, Identity,
    IdentityAction, UserFightingInfo,
};
use ggwp_ledger::freezing::{self, FreezingAccounts, FreezingError, RewardTableRow, UserInfo};
use ggwp_ledger::gpass::{self, GpassError, GpassSettings, Wallet};
use ggwp_ledger::ids::{contains_id, derive_authority, AccountId};
use ggwp_ledger::params::{
    Cluster, DistributionParams, FightingParams, FreezingParams, ProgramsParams, StakingParams,
};
use ggwp_ledger::reward_distribution::{
    self, RewardDistributionAccounts, RewardDistributionError, RewardDistributionInfo,
};
use ggwp_ledger::staking::{self, StakingAccounts, StakingError};
use ggwp_ledger::token::Transfer;

const T0: i64 = 1_660_032_700;
const DAY: i64 = 86400;

fn id(n: u8) -> AccountId {
    AccountId::new([n; 32])
}

fn ledger_with(minter: AccountId, burner: AccountId) -> GpassSettings {
    gpass::initialize(id(1), 1000, id(2), vec![minter], vec![burner]).unwrap()
}

fn lock_vault(royalty: u8, table: Vec<RewardTableRow>) -> freezing::FreezingInfo {
    let accounts = FreezingAccounts {
        admin: id(1),
        program_id: id(40),
        freezing_info: id(41),
        ggwp_token: id(42),
        gpass_info: id(43),
        accumulative_fund: id(44),
        treasury: id(45),
    };
    let params = FreezingParams {
        reward_period: 100,
        royalty,
        unfreeze_royalty: 15,
        unfreeze_lock_period: 1000,
    };
    freezing::initialize(&accounts, id(2), params, table).unwrap()
}

fn three_tiers() -> Vec<RewardTableRow> {
    vec![
        RewardTableRow { ggwp_amount: 1000, gpass_amount: 5 },
        RewardTableRow { ggwp_amount: 2000, gpass_amount: 10 },
        RewardTableRow { ggwp_amount: 3000, gpass_amount: 15 },
    ]
}

#[test]
fn derived_authority_is_stable_and_scoped() {
    let program = id(9);
    let a = derive_authority("treasury_auth", &vec![id(3)], &program).unwrap();
    let b = derive_authority("treasury_auth", &vec![id(3)], &program).unwrap();
    let c = derive_authority("treasury_auth", &vec![id(4)], &program).unwrap();
    let d = derive_authority("gpass_mint_auth", &vec![id(3)], &program).unwrap();
    assert_eq!(a.bytes, b.bytes);
    assert_ne!(a.bytes, c.bytes);
    assert_ne!(a.bytes, d.bytes);
    assert_ne!(a.bytes, program.bytes);
    assert_ne!(a.bytes, id(3).bytes);
}

#[test]
fn allow_list_membership() {
    let list = vec![id(1), id(2)];
    assert!(contains_id(&list, &id(2)));
    assert!(!contains_id(&list, &id(3)));
    assert!(!contains_id(&vec![], &id(1)));
}

#[test]
fn ledger_mint_burn_keeps_total() {
    let mut info = ledger_with(id(7), id(8));
    let mut w = gpass::create_wallet(T0);
    assert_eq!(gpass::mint_to(&mut info, &mut w, &id(7), 10, T0 + 1), Ok(()));
    assert_eq!(w.amount, 10);
    assert_eq!(info.total_amount, 10);
    assert_eq!(gpass::burn(&mut info, &mut w, &id(8), 3, T0 + 2), Ok(()));
    assert_eq!((w.amount, info.total_amount), (7, 7));
    // Burning more than the balance empties the wallet only.
    assert_eq!(gpass::burn(&mut info, &mut w, &id(8), 100, T0 + 3), Ok(()));
    assert_eq!((w.amount, info.total_amount), (0, 0));
}

#[test]
fn ledger_rejects_wrong_callers_and_zero_amounts() {
    let mut info = ledger_with(id(7), id(8));
    let mut w = gpass::create_wallet(T0);
    assert_eq!(gpass::mint_to(&mut info, &mut w, &id(8), 10, T0), Err(GpassError::InvalidMintAuthority));
    assert_eq!(gpass::mint_to(&mut info, &mut w, &id(7), 0, T0), Err(GpassError::ZeroMintAmount));
    assert_eq!(gpass::burn(&mut info, &mut w, &id(7), 1, T0), Err(GpassError::InvalidBurnAuthority));
    assert_eq!(gpass::burn(&mut info, &mut w, &id(8), 0, T0), Err(GpassError::ZeroBurnAmount));
    assert_eq!(GpassError::InvalidMintAuthority.kind(), ErrorKind::AccessDenied);
    assert_eq!(w, Wallet { amount: 0, last_burned: T0 });
    assert_eq!(info.total_amount, 0);
}

#[test]
fn ledger_expires_lazily_before_minting() {
    let mut info = ledger_with(id(7), id(8));
    let mut w = gpass::create_wallet(T0);
    gpass::mint_to(&mut info, &mut w, &id(7), 10, T0).unwrap();
    gpass::mint_to(&mut info, &mut w, &id(7), 5, T0 + 1000).unwrap();
    assert_eq!(w, Wallet { amount: 5, last_burned: T0 + 1000 });
    assert_eq!(info.total_amount, 5);
}

#[test]
fn sweep_twice_in_one_window_changes_state_once() {
    let mut info = ledger_with(id(7), id(8));
    let mut w = gpass::create_wallet(T0);
    gpass::mint_to(&mut info, &mut w, &id(7), 10, T0).unwrap();
    assert_eq!(gpass::try_burn_in_period(&mut info, &mut w, T0 + 10), Err(GpassError::PeriodNotPassed));
    assert_eq!(gpass::try_burn_in_period(&mut info, &mut w, T0 + 1000), Ok(()));
    let after_first = (w, info.total_amount);
    assert_eq!(after_first, (Wallet { amount: 0, last_burned: T0 + 1000 }, 0));
    assert_eq!(gpass::try_burn_in_period(&mut info, &mut w, T0 + 1500), Err(GpassError::PeriodNotPassed));
    assert_eq!((w, info.total_amount), after_first);
}

#[test]
fn ledger_setters_check_roles() {
    let mut info = ledger_with(id(7), id(8));
    assert_eq!(gpass::update_burn_period(&mut info, &id(1), 5), Err(GpassError::AccessDenied));
    assert_eq!(gpass::update_burn_period(&mut info, &id(2), 0), Err(GpassError::InvalidBurnPeriodValue));
    assert_eq!(gpass::update_burn_period(&mut info, &id(2), 5), Ok(()));
    assert_eq!(info.burn_period, 5);
    assert_eq!(
        gpass::update_minters(&mut info, &id(2), vec![id(3), id(4)]),
        Err(GpassError::MaxMintersSizeExceeded)
    );
    assert_eq!(
        gpass::update_burners(&mut info, &id(2), vec![id(3), id(4), id(5), id(6)]),
        Err(GpassError::MaxBurnersSizeExceeded)
    );
    assert_eq!(gpass::set_update_authority(&mut info, &id(2), id(9)), Err(GpassError::AccessDenied));
    assert_eq!(gpass::update_admin(&mut info, &id(1), id(9)), Ok(()));
    assert_eq!(info.admin.bytes, id(9).bytes);
    assert!(gpass::initialize(id(1), 0, id(2), vec![], vec![]).is_err());
}

#[test]
fn lock_of_one_thousand_at_eight_percent() {
    let mut vault = lock_vault(8, three_tiers());
    let mut ledger = ledger_with(vault.gpass_mint_auth, id(8));
    let mut wallet = gpass::create_wallet(T0);
    let mut user = UserInfo { is_initialized: false, freezed_amount: 0, freezed_time: 0, last_getting_gpass: 0 };
    let transfers = freezing::freeze(&mut vault, &mut user, &mut ledger, &mut wallet, &id(60), &id(61), 1000, T0).unwrap();
    assert_eq!(transfers.len(), 2);
    assert_eq!(transfers[0].amount, 80);
    assert_eq!(transfers[0].to.bytes, vault.accumulative_fund.bytes);
    assert_eq!(transfers[1].amount, 920);
    assert_eq!(transfers[1].to.bytes, vault.treasury.bytes);
    assert_eq!(user.freezed_amount, 920);
    assert_eq!(vault.total_freezed, 920);
    assert_eq!(wallet.amount, 0);
    assert_eq!(ledger.total_amount, 0);
}

#[test]
fn lock_mints_tier_reward_and_refuses_second_lock() {
    let mut vault = lock_vault(8, three_tiers());
    let mut ledger = ledger_with(vault.gpass_mint_auth, id(8));
    let mut wallet = gpass::create_wallet(T0);
    let mut user = UserInfo { is_initialized: false, freezed_amount: 0, freezed_time: 0, last_getting_gpass: 0 };
    freezing::freeze(&mut vault, &mut user, &mut ledger, &mut wallet, &id(60), &id(61), 2500, T0).unwrap();
    assert_eq!(user.freezed_amount, 2300);
    assert_eq!(wallet.amount, 10);
    assert_eq!(
        freezing::freeze(&mut vault, &mut user, &mut ledger, &mut wallet, &id(60), &id(61), 2500, T0),
        Err(FreezingError::AdditionalFreezingNotAvailable)
    );
    assert_eq!(
        freezing::freeze(&mut vault, &mut user, &mut ledger, &mut wallet, &id(60), &id(61), 0, T0),
        Err(FreezingError::ZeroFreezingAmount)
    );
}

#[test]
fn lock_fails_whole_when_vault_is_not_a_minter() {
    let mut vault = lock_vault(8, three_tiers());
    let mut ledger = ledger_with(id(99), id(8));
    let mut wallet = gpass::create_wallet(T0);
    let mut user = UserInfo { is_initialized: false, freezed_amount: 0, freezed_time: 0, last_getting_gpass: 0 };
    assert_eq!(
        freezing::freeze(&mut vault, &mut user, &mut ledger, &mut wallet, &id(60), &id(61), 2500, T0),
        Err(FreezingError::Gpass(GpassError::InvalidMintAuthority))
    );
    assert_eq!(vault.total_freezed, 0);
    assert_eq!(user.freezed_amount, 0);
}

#[test]
fn accrual_collects_whole_periods_only() {
    let mut vault = lock_vault(0, three_tiers());
    let mut ledger = ledger_with(vault.gpass_mint_auth, id(8));
    let mut wallet = gpass::create_wallet(T0);
    let mut user = UserInfo { is_initialized: false, freezed_amount: 0, freezed_time: 0, last_getting_gpass: 0 };
    freezing::freeze(&mut vault, &mut user, &mut ledger, &mut wallet, &id(60), &id(61), 1000, T0).unwrap();
    assert_eq!(wallet.amount, 5);
    assert_eq!(freezing::withdraw_gpass(&vault, &mut user, &mut ledger, &mut wallet, T0 + 99), Err(FreezingError::ZeroGpassEarned));
    assert_eq!(freezing::withdraw_gpass(&vault, &mut user, &mut ledger, &mut wallet, T0 + 250), Ok(()));
    assert_eq!(wallet.amount, 15);
    assert_eq!(user.last_getting_gpass, T0 + 200);
    assert_eq!(FreezingError::ZeroGpassEarned.kind(), ErrorKind::NotYetDue);
}

#[test]
fn early_unlock_pays_royalty() {
    let mut vault = lock_vault(0, three_tiers());
    let mut ledger = ledger_with(vault.gpass_mint_auth, id(8));
    let mut wallet = gpass::create_wallet(T0);
    let mut user = UserInfo { is_initialized: false, freezed_amount: 0, freezed_time: 0, last_getting_gpass: 0 };
    freezing::freeze(&mut vault, &mut user, &mut ledger, &mut wallet, &id(60), &id(61), 1000, T0).unwrap();
    let ts = freezing::unfreeze(&mut vault, &mut user, &mut ledger, &mut wallet, &id(61), T0 + 150).unwrap();
    assert_eq!(ts.len(), 2);
    assert_eq!(ts[0].amount, 150);
    assert_eq!(ts[0].authority.bytes, vault.treasury_auth.bytes);
    assert_eq!(ts[1].amount, 850);
    assert_eq!(wallet.amount, 10);
    assert_eq!(user.freezed_amount, 0);
    assert_eq!(vault.total_freezed, 0);
    assert_eq!(
        freezing::unfreeze(&mut vault, &mut user, &mut ledger, &mut wallet, &id(61), T0 + 150),
        Err(FreezingError::ZeroUnfreezingAmount)
    );
}

#[test]
fn late_unlock_pays_everything_back() {
    let mut vault = lock_vault(0, three_tiers());
    let mut ledger = ledger_with(vault.gpass_mint_auth, id(8));
    let mut wallet = gpass::create_wallet(T0);
    let mut user = UserInfo { is_initialized: false, freezed_amount: 0, freezed_time: 0, last_getting_gpass: 0 };
    freezing::freeze(&mut vault, &mut user, &mut ledger, &mut wallet, &id(60), &id(61), 1000, T0).unwrap();
    let ts = freezing::unfreeze(&mut vault, &mut user, &mut ledger, &mut wallet, &id(61), T0 + 1000).unwrap();
    assert_eq!(ts.len(), 1);
    assert_eq!(ts[0].amount, 1000);
}

#[test]
fn lock_vault_setup_validates() {
    let accounts = FreezingAccounts {
        admin: id(1), program_id: id(40), freezing_info: id(41), ggwp_token: id(42),
        gpass_info: id(43), accumulative_fund: id(44), treasury: id(45),
    };
    let p = FreezingParams { reward_period: 100, royalty: 101, unfreeze_royalty: 15, unfreeze_lock_period: 1 };
    assert!(matches!(freezing::initialize(&accounts, id(2), p, three_tiers()), Err(FreezingError::InvalidRoyaltyValue)));
    let p = FreezingParams { reward_period: 100, royalty: 8, unfreeze_royalty: 15, unfreeze_lock_period: 1 };
    assert!(matches!(freezing::initialize(&accounts, id(2), p, vec![]), Err(FreezingError::InvalidRewardTable)));
    let p = FreezingParams { reward_period: 0, royalty: 8, unfreeze_royalty: 15, unfreeze_lock_period: 1 };
    assert!(matches!(freezing::initialize(&accounts, id(2), p, three_tiers()), Err(FreezingError::InvalidRewardPeriod)));
    let mut vault = lock_vault(8, three_tiers());
    assert_eq!(freezing::update_royalty(&mut vault, &id(1), 5), Err(FreezingError::AccessDenied));
    assert_eq!(freezing::update_royalty(&mut vault, &id(2), 5), Ok(()));
    assert_eq!(vault.royalty, 5);
}

fn stake_vault() -> staking::StakingInfo {
    let accounts = StakingAccounts {
        admin: id(1), program_id: id(50), staking_info: id(51), ggwp_token: id(52),
        accumulative_fund: id(53), staking_fund: id(54), treasury: id(55),
    };
    let params = StakingParams {
        epoch_period_days: 10, min_stake_amount: 1000, hold_period_days: 15,
        hold_royalty: 10, royalty: 8, apr_start: 10, apr_step: 1, apr_end: 5,
    };
    staking::initialize(&accounts, id(2), params, T0).unwrap()
}

#[test]
fn stake_and_withdraw_with_interest() {
    let mut vault = stake_vault();
    let mut user = staking::UserInfo { is_initialized: false, amount: 0, stake_time: 0 };
    assert_eq!(staking::stake(&mut vault, &mut user, &id(60), &id(61), 999, T0), Err(StakingError::MinStakeAmountExceeded));
    let ts = staking::stake(&mut vault, &mut user, &id(60), &id(61), 10_869_565_218, T0).unwrap();
    assert_eq!(ts[0].amount, 869_565_217);
    assert_eq!(ts[1].amount, 10_000_000_001);
    assert_eq!(vault.total_staked, 10_000_000_001);
    assert_eq!(staking::stake(&mut vault, &mut user, &id(60), &id(61), 5000, T0), Err(StakingError::AdditionalStakeNotAllowed));
    let ts = staking::withdraw(&mut vault, &mut user, &id(61), u64::MAX, T0 + 20 * DAY).unwrap();
    // Epoch 1 crossed (10 days at 10%), epoch 2 crossed (10 days at 9%); hold period passed.
    assert_eq!(ts.len(), 2);
    assert!(ts[0].amount > 27_000_000);
    assert_eq!(ts[0].from.bytes, vault.staking_fund.bytes);
    assert_eq!(ts[1].amount, 10_000_000_001);
    assert_eq!(vault.total_staked, 0);
    assert_eq!(staking::withdraw(&mut vault, &mut user, &id(61), 0, T0 + 20 * DAY), Err(StakingError::NothingToWithdraw));
}

#[test]
fn early_withdraw_pays_hold_penalty_and_caps_interest() {
    let mut vault = stake_vault();
    let mut user = staking::UserInfo { is_initialized: false, amount: 0, stake_time: 0 };
    staking::stake(&mut vault, &mut user, &id(60), &id(61), 1000, T0).unwrap();
    let ts = staking::withdraw(&mut vault, &mut user, &id(61), 0, T0 + 10 * DAY).unwrap();
    assert_eq!(ts.len(), 3);
    assert_eq!(ts[0].amount, 92);
    assert_eq!(ts[1].amount, 0);
    assert_eq!(ts[2].amount, 828);
}

#[test]
fn stake_vault_setup_validates() {
    let accounts = StakingAccounts {
        admin: id(1), program_id: id(50), staking_info: id(51), ggwp_token: id(52),
        accumulative_fund: id(53), staking_fund: id(54), treasury: id(55),
    };
    let bad = StakingParams {
        epoch_period_days: 10, min_stake_amount: 1000, hold_period_days: 15,
        hold_royalty: 0, royalty: 8, apr_start: 10, apr_step: 1, apr_end: 5,
    };
    assert!(matches!(staking::initialize(&accounts, id(2), bad, T0), Err(StakingError::InvalidHoldRoyalty)));
    let mut vault = stake_vault();
    assert_eq!(staking::update_min_stake_amount(&mut vault, &id(2), 0), Err(StakingError::InvalidMinStakeAmount));
    assert_eq!(staking::update_min_stake_amount(&mut vault, &id(1), 7), Err(StakingError::AccessDenied));
    assert_eq!(staking::update_min_stake_amount(&mut vault, &id(2), 7), Ok(()));
}

fn split(shares: [u8; 4]) -> distribution::DistributionInfo {
    let accounts = DistributionAccounts {
        admin: id(1), program_id: id(70), distribution_info: id(71), ggwp_token: id(72),
        accumulative_fund: id(73), play_to_earn_fund: id(74), staking_fund: id(75),
        company_fund: id(76), team_fund: id(77),
    };
    let params = DistributionParams {
        play_to_earn_fund_share: shares[0], staking_fund_share: shares[1],
        company_fund_share: shares[2], team_fund_share: shares[3],
    };
    distribution::initialize(&accounts, id(2), params).unwrap()
}

fn amounts(ts: &[Transfer]) -> Vec<u64> {
    ts.iter().map(|t| t.amount).collect()
}

#[test]
fn treasury_split_drains_the_fund() {
    let mut info = split([45, 40, 5, 10]);
    let ts = distribution::distribute(&mut info, 1_000_000_007, T0).unwrap();
    assert_eq!(amounts(&ts), vec![450_000_003, 400_000_002, 50_000_000, 100_000_002]);
    assert_eq!(amounts(&ts).iter().sum::<u64>(), 1_000_000_007);
    assert_eq!(ts[3].to.bytes, id(77).bytes);
    assert_eq!(info.last_distribution, T0);

    let mut info = split([30, 30, 30, 0]);
    let ts = distribution::distribute(&mut info, 999, T0).unwrap();
    assert_eq!(amounts(&ts), vec![299, 299, 299, 102]);

    let mut info = split([60, 60, 0, 0]);
    assert_eq!(distribution::distribute(&mut info, 100, T0).map(|t| t.len()), Err(DistributionError::Overflow));
    assert_eq!(distribution::distribute(&mut info, 1, T0).map(|t| amounts(&t)), Ok(vec![0, 0, 0, 1]));
    assert_eq!(distribution::distribute(&mut info, 0, T0).map(|t| t.len()), Err(DistributionError::EmptyAccumulativeFund));
}

#[test]
fn split_amounts_of_any_length() {
    assert_eq!(distribution::split_amounts(&vec![100], 77), Ok(vec![77]));
    assert_eq!(distribution::split_amounts(&vec![33, 33, 33], 10), Ok(vec![3, 3, 4]));
}

#[test]
fn treasury_split_setup_validates() {
    let accounts = DistributionAccounts {
        admin: id(1), program_id: id(70), distribution_info: id(71), ggwp_token: id(72),
        accumulative_fund: id(73), play_to_earn_fund: id(74), staking_fund: id(75),
        company_fund: id(76), team_fund: id(77),
    };
    let params = DistributionParams { play_to_earn_fund_share: 101, staking_fund_share: 0, company_fund_share: 0, team_fund_share: 0 };
    assert!(matches!(distribution::initialize(&accounts, id(2), params), Err(DistributionError::InvalidShare)));
    let mut info = split([45, 40, 5, 10]);
    let params = DistributionParams { play_to_earn_fund_share: 50, staking_fund_share: 50, company_fund_share: 0, team_fund_share: 0 };
    assert_eq!(distribution::update_shares(&mut info, &id(1), params), Err(DistributionError::AccessDenied));
    assert_eq!(distribution::update_shares(&mut info, &id(2), params), Ok(()));
    assert_eq!(info.play_to_earn_fund_share, 50);
}

fn gate(list: Vec<AccountId>) -> RewardDistributionInfo {
    let accounts = RewardDistributionAccounts {
        admin: id(1), program_id: id(80), reward_distribution_info: id(81),
        ggwp_token: id(82), play_to_earn_fund: id(83),
    };
    reward_distribution::initialize(&accounts, id(2), list).unwrap()
}

#[test]
fn gate_moves_funds_only_for_listed_callers() {
    let mut g = gate(vec![id(5)]);
    let t = reward_distribution::transfer(&g, &id(5), &id(60), 42).unwrap();
    assert_eq!(t.amount, 42);
    assert_eq!(t.from.bytes, id(83).bytes);
    assert_eq!(t.authority.bytes, g.play_to_earn_fund_auth.bytes);
    let denied = reward_distribution::transfer(&g, &id(6), &id(60), 42);
    assert!(matches!(denied, Err(RewardDistributionError::InvalidTransferAuthority)));
    assert_eq!(RewardDistributionError::InvalidTransferAuthority.kind(), ErrorKind::CapabilityDenied);
    assert_eq!(reward_distribution::update_transfer_authority_list(&mut g, &id(1), vec![id(6)]), Err(RewardDistributionError::AccessDenied));
    assert_eq!(reward_distribution::update_transfer_authority_list(&mut g, &id(2), vec![id(6)]), Ok(()));
    assert!(reward_distribution::transfer(&g, &id(6), &id(60), 1).is_ok());
    assert!(reward_distribution::transfer(&g, &id(5), &id(60), 1).is_err());
    let accounts = RewardDistributionAccounts {
        admin: id(1), program_id: id(80), reward_distribution_info: id(81),
        ggwp_token: id(82), play_to_earn_fund: id(83),
    };
    assert!(matches!(
        reward_distribution::initialize(&accounts, id(2), vec![id(1); 7]),
        Err(RewardDistributionError::InvalidTransferAuthList)
    ));
}

struct Match {
    settings: fighting::FightingSettings,
    ledger: GpassSettings,
    wallet: Wallet,
    user: UserFightingInfo,
}

fn session(afk_timeout: i64, credits: u64) -> Match {
    let accounts = FightingAccounts {
        admin: id(1), program_id: id(90), fighting_settings: id(91),
        gpass_info: id(92), reward_distribution_info: id(81),
    };
    let params = FightingParams {
        validator: id(30), afk_timeout, royalty: 8, reward_coefficient: 2,
        gpass_daily_reward_coefficient: 10,
    };
    let settings = fighting::initialize(&accounts, id(2), params).unwrap();
    let mut ledger = ledger_with(id(7), settings.gpass_burn_auth);
    let mut wallet = gpass::create_wallet(T0 - 10);
    if credits > 0 {
        gpass::mint_to(&mut ledger, &mut wallet, &id(7), credits, T0 - 10).unwrap();
    }
    Match { settings, ledger, wallet, user: UserFightingInfo { in_game: false, in_game_time: 0 } }
}

#[test]
fn afk_session_recovers_after_timeout() {
    let mut m = session(3600, 3);
    assert_eq!(fighting::start_game(&m.settings, &mut m.user, &mut m.ledger, &mut m.wallet, T0), Ok(()));
    assert_eq!(m.wallet.amount, 2);
    assert_eq!(m.user, UserFightingInfo { in_game: true, in_game_time: T0 });
    assert_eq!(
        fighting::start_game(&m.settings, &mut m.user, &mut m.ledger, &mut m.wallet, T0 + 3599),
        Err(FightingError::StillInGame)
    );
    assert_eq!(fighting::start_game(&m.settings, &mut m.user, &mut m.ledger, &mut m.wallet, T0 + 3601), Ok(()));
    assert_eq!(m.wallet.amount, 2);
    assert!(!m.user.in_game);
    // By now the ledger's burn period (1000 s) has passed: the credit expired.
    assert_eq!(
        fighting::start_game(&m.settings, &mut m.user, &mut m.ledger, &mut m.wallet, T0 + 3602),
        Err(FightingError::NotEnoughGpass)
    );
    gpass::mint_to(&mut m.ledger, &mut m.wallet, &id(7), 4, T0 + 3602).unwrap();
    assert_eq!(fighting::start_game(&m.settings, &mut m.user, &mut m.ledger, &mut m.wallet, T0 + 3603), Ok(()));
    assert_eq!(m.wallet.amount, 3);
    assert_eq!(m.ledger.total_amount, 3);
}

#[test]
fn start_needs_credit() {
    let mut m = session(3600, 0);
    assert_eq!(
        fighting::start_game(&m.settings, &mut m.user, &mut m.ledger, &mut m.wallet, T0),
        Err(FightingError::NotEnoughGpass)
    );
    let mut m = session(3600, 1);
    // The credit has expired once the burn period has passed.
    assert_eq!(
        fighting::start_game(&m.settings, &mut m.user, &mut m.ledger, &mut m.wallet, T0 + 2000),
        Err(FightingError::NotEnoughGpass)
    );
}

fn log(n: usize) -> Vec<IdentityAction> {
    vec![IdentityAction { who: Identity::Player, action: Action::ArmShort }; n]
}

#[test]
fn finalize_records_once_and_pays_winner() {
    let mut m = session(3600, 3);
    let g = gate(vec![m.settings.reward_transfer_auth]);
    let mut vault = lock_vault(8, three_tiers());
    vault.current_users_freezed = 10;
    vault.daily_gpass_reward = 100;
    let mut games: Vec<GameInfo> = Vec::new();
    fighting::start_game(&m.settings, &mut m.user, &mut m.ledger, &mut m.wallet, T0).unwrap();
    assert_eq!(
        fighting::finalize_game(&m.settings, &id(31), &mut m.user, &mut games, 1, GameResult::Win, log(3), 123_000_000_000, &vault, &g, &id(60), &id(44)).map(|t| t.len()),
        Err(FightingError::AccessDenied)
    );
    assert_eq!(
        fighting::finalize_game(&m.settings, &id(30), &mut m.user, &mut games, 1, GameResult::Win, log(0), 123_000_000_000, &vault, &g, &id(60), &id(44)).map(|t| t.len()),
        Err(FightingError::InvalidActionsLogSize)
    );
    assert_eq!(
        fighting::finalize_game(&m.settings, &id(30), &mut m.user, &mut games, 1, GameResult::Win, log(55), 123_000_000_000, &vault, &g, &id(60), &id(44)).map(|t| t.len()),
        Err(FightingError::InvalidActionsLogSize)
    );
    let ts = fighting::finalize_game(&m.settings, &id(30), &mut m.user, &mut games, 1, GameResult::Win, log(54), 123_000_000_000, &vault, &g, &id(60), &id(44)).unwrap();
    assert_eq!(amounts(&ts), vec![5_658_000_000, 492_000_000]);
    assert_eq!(ts[0].to.bytes, id(60).bytes);
    assert_eq!(ts[1].to.bytes, id(44).bytes);
    assert_eq!(games.len(), 1);
    assert_eq!(games[0].id, 1);
    assert!(!m.user.in_game);
    assert_eq!(
        fighting::finalize_game(&m.settings, &id(30), &mut m.user, &mut games, 2, GameResult::Loss, log(3), 0, &vault, &g, &id(60), &id(44)).map(|t| t.len()),
        Err(FightingError::UserNotInGame)
    );
    fighting::start_game(&m.settings, &mut m.user, &mut m.ledger, &mut m.wallet, T0 + 10).unwrap();
    assert_eq!(
        fighting::finalize_game(&m.settings, &id(30), &mut m.user, &mut games, 1, GameResult::Loss, log(3), 0, &vault, &g, &id(60), &id(44)).map(|t| t.len()),
        Err(FightingError::GameAlreadyFinalized)
    );
    let ts = fighting::finalize_game(&m.settings, &id(30), &mut m.user, &mut games, 2, GameResult::Loss, log(3), 123_000_000_000, &vault, &g, &id(60), &id(44)).unwrap();
    assert!(ts.is_empty());
    assert_eq!(games.len(), 2);
}

#[test]
fn winner_is_not_paid_through_a_gate_that_does_not_list_the_module() {
    let mut m = session(3600, 3);
    let g = gate(vec![id(5)]);
    let mut vault = lock_vault(8, three_tiers());
    vault.current_users_freezed = 10;
    vault.daily_gpass_reward = 100;
    let mut games: Vec<GameInfo> = Vec::new();
    fighting::start_game(&m.settings, &mut m.user, &mut m.ledger, &mut m.wallet, T0).unwrap();
    let r = fighting::finalize_game(&m.settings, &id(30), &mut m.user, &mut games, 1, GameResult::Win, log(3), 123_000_000_000, &vault, &g, &id(60), &id(44));
    assert_eq!(r.map(|t| t.len()), Err(FightingError::RewardDistribution(RewardDistributionError::InvalidTransferAuthority)));
    assert!(games.is_empty());
    assert!(m.user.in_game);
}

#[test]
fn presets_per_cluster() {
    assert!(ProgramsParams::get_by_cluster(Cluster::Localnet).is_none());
    let devnet = ProgramsParams::get_by_cluster(Cluster::Devnet).unwrap();
    assert_eq!(devnet.gpass.burn_period, 86400);
    assert_eq!(devnet.staking.epoch_period_days, 2);
    let mainnet = ProgramsParams::get_by_cluster(Cluster::Mainnet).unwrap();
    assert_eq!(mainnet.gpass.burn_period, 30 * 86400);
    assert_eq!(mainnet.freezing.unfreeze_lock_period, 15 * 86400);
    assert_eq!(mainnet.distribution.play_to_earn_fund_share, 45);
    assert_eq!(mainnet.fighting.validator.bytes[0], 158);
}

#[test]
fn game_values_print_their_names() {
    assert_eq!(GameResult::Win.to_string(), "GameResult::Win");
    assert_eq!(Identity::Bot.to_string(), "Identity::Bot");
    assert_eq!(Action::SkillBigGuy.to_string(), "Action::BigGuy");
    assert_eq!(Action::NoAction.to_string(), "Action::None");
    assert_eq!(GameResult::default(), GameResult::Draw);
    assert_eq!(Action::default(), Action::NoAction);
}

#[test]
fn errors_fall_into_the_taxonomy() {
    assert_eq!(StakingError::NothingToWithdraw.kind(), ErrorKind::StateConflict);
    assert_eq!(StakingError::InvalidAPR.kind(), ErrorKind::InvalidParameter);
    assert_eq!(DistributionError::Overflow.kind(), ErrorKind::Overflow);
    assert_eq!(GpassError::PeriodNotPassed.kind(), ErrorKind::NotYetDue);
    assert_eq!(FightingError::StillInGame.kind(), ErrorKind::StateConflict);
    assert_eq!(
        FightingError::RewardDistribution(RewardDistributionError::InvalidTransferAuthority).kind(),
        ErrorKind::CapabilityDenied
    );
    assert_eq!(FreezingError::Gpass(GpassError::ZeroMintAmount).kind(), ErrorKind::InvalidParameter);
}
