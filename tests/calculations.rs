use ggwp_ledger::error::ErrorKind;
use ggwp_ledger::freezing::is_withdraw_royalty as lock_royalty_owed;
use ggwp_ledger::staking::is_withdraw_royalty as hold_penalty_owed;
use ggwp_ledger::fighting::calc_reward_amount;
use ggwp_ledger::freezing::{
    calc_earned_gpass, earned_gpass_immediately, is_reward_table_valid, RewardTableRow,
};
use ggwp_ledger::gpass::{time_passed, GpassError};
use ggwp_ledger::percent::{calc_royalty_amount, calc_share_amount};
use ggwp_ledger::staking::{
    calc_user_past_epochs, calc_user_reward_amount, get_apr_by_epoch, get_epoch_by_time,
};

const TIME: i64 = 1660032700;
const DAY: i64 = 24 * 60 * 60;

fn row(ggwp_amount: u64, gpass_amount: u64) -> RewardTableRow {
    RewardTableRow { ggwp_amount, gpass_amount }
}

#[test]
fn test_calc_share_amount() {
    assert_eq!(calc_share_amount(8, 100_000_000_000), Ok(8_000_000_000));
    assert_eq!(calc_share_amount(10, 100_000_000_000), Ok(10_000_000_000));
    assert_eq!(calc_share_amount(50, 123_000_000_000), Ok(61_500_000_000));
    assert_eq!(calc_share_amount(10, 0), Ok(0));
}

#[test]
fn test_calc_reward_amount() {
    assert_eq!(calc_reward_amount(0, 10, 2, 100, 10), Ok(0));
    assert_eq!(calc_reward_amount(0, 0, 2, 100, 10), Ok(0));
    assert_eq!(calc_reward_amount(10_000_000_000, 2, 20000, 100, 10), Ok(250_000));
    assert_eq!(calc_reward_amount(123_000_000_000, 10, 2, 100, 10), Ok(6_150_000_000));
    assert_eq!(calc_reward_amount(10_000_000_000, 0, 20000, 100, 10), Ok(10_000_000_000));
    assert_eq!(calc_reward_amount(123_000_000_000, 10, 2, 5, 10), Ok(500_000_000));
}

#[test]
fn test_is_reward_table_valid() {
    assert_eq!(is_reward_table_valid(&vec![]), Ok(false));
    assert_eq!(is_reward_table_valid(&vec![row(0, 0)]), Ok(false));
    assert_eq!(is_reward_table_valid(&vec![row(1000, 0)]), Ok(false));
    assert_eq!(is_reward_table_valid(&vec![row(0, 5)]), Ok(false));
    assert_eq!(
        is_reward_table_valid(&vec![row(1000, 5), row(1000, 10), row(3000, 15)]),
        Ok(false)
    );
    assert_eq!(
        is_reward_table_valid(&vec![row(1000, 5), row(2000, 10), row(500, 15)]),
        Ok(false)
    );
    assert_eq!(
        is_reward_table_valid(&vec![row(1000, 5), row(2000, 5), row(3000, 15)]),
        Ok(false)
    );
    assert_eq!(
        is_reward_table_valid(&vec![row(1000, 5), row(2000, 10), row(3000, 2)]),
        Ok(false)
    );
    assert_eq!(
        is_reward_table_valid(&vec![row(1000, 5), row(2000, 10), row(2000, 10)]),
        Ok(false)
    );
    assert_eq!(is_reward_table_valid(&vec![row(1000, 5)]), Ok(true));
    assert_eq!(
        is_reward_table_valid(&vec![row(1000, 5), row(2000, 10), row(3000, 15)]),
        Ok(true)
    );
}

#[test]
fn test_earned_gpass_immediately() {
    assert_eq!(earned_gpass_immediately(&vec![], 0), Ok(0));
    assert_eq!(earned_gpass_immediately(&vec![row(1000, 5)], 500), Ok(0));
    assert_eq!(earned_gpass_immediately(&vec![row(1000, 5)], 1000), Ok(5));
    assert_eq!(earned_gpass_immediately(&vec![row(1000, 5), row(2000, 10)], 1500), Ok(5));
    assert_eq!(earned_gpass_immediately(&vec![row(1000, 5), row(2000, 10)], 2000), Ok(10));
    assert_eq!(earned_gpass_immediately(&vec![row(1000, 5), row(2000, 10)], 3000), Ok(10));
}

#[test]
fn test_calc_earned_gpass() {
    let reward_table = vec![row(1000, 5), row(2000, 10), row(3000, 15)];
    let current_time = 1660032700;
    let reward_period = 100;

    assert_eq!(calc_earned_gpass(&reward_table, 1000, current_time, 1660032700, reward_period), Ok(0));
    assert_eq!(calc_earned_gpass(&reward_table, 1000, current_time, 1660032750, reward_period), Ok(0));
    assert_eq!(calc_earned_gpass(&reward_table, 1000, current_time, 1660032800, reward_period), Ok(0));
    assert_eq!(calc_earned_gpass(&reward_table, 1000, current_time, 1660032600, reward_period), Ok(5));
    assert_eq!(calc_earned_gpass(&reward_table, 1000, current_time, 1660032500, reward_period), Ok(10));
    assert_eq!(calc_earned_gpass(&reward_table, 3000, current_time, 1660032450, reward_period), Ok(30));
}

#[test]
fn utils_test_calc_royalty_amount() {
    assert_eq!(calc_royalty_amount(0, 0), Ok(0));
    assert_eq!(calc_royalty_amount(0, 1000), Ok(0));
    assert_eq!(calc_royalty_amount(8, 0), Ok(0));
    assert_eq!(calc_royalty_amount(8, 1000), Ok(80));
    assert_eq!(calc_royalty_amount(50, 5000), Ok(2500));
    assert_eq!(calc_royalty_amount(50, 5_000_000_000), Ok(2_500_000_000));
}

#[test]
fn utils_test_is_withdraw_royalty() {
    assert_eq!(lock_royalty_owed(1660032700, 1660032700, 100), Ok(true));
    assert_eq!(lock_royalty_owed(1660032700, 1660032650, 100), Ok(true));
    assert_eq!(lock_royalty_owed(1660032700, 1660032800, 100), Ok(true));
    assert_eq!(lock_royalty_owed(1660032700, 1660032500, 100), Ok(false));
    assert_eq!(lock_royalty_owed(1660032700, 1660032300, 100), Ok(false));

    assert_eq!(hold_penalty_owed(TIME, TIME, 2), Ok(true));
    assert_eq!(hold_penalty_owed(TIME, TIME + 40000, 2), Ok(true));
    assert_eq!(hold_penalty_owed(TIME, TIME - 1 * DAY, 2), Ok(true));
    assert_eq!(hold_penalty_owed(TIME, TIME - 1 * DAY + 100, 2), Ok(true));
    assert_eq!(hold_penalty_owed(TIME, TIME - 2 * DAY, 2), Ok(false));
    assert_eq!(hold_penalty_owed(TIME, TIME - 31 * DAY, 30), Ok(false));
}

#[test]
fn test_time_passed() {
    assert_eq!(time_passed(0, 0), Err(GpassError::InvalidLastBurnedValue));
    assert_eq!(time_passed(10000, 0), Err(GpassError::InvalidLastBurnedValue));
    assert_eq!(time_passed(1000, 1001), Err(GpassError::Overflow));
    assert_eq!(time_passed(1000, 500), Ok(500));
}

#[test]
fn test_calc_user_reward_amount() {
    let amount = 10_000_000_000;
    assert_eq!(
        calc_user_reward_amount(10, TIME, 10, 1, 5, amount, TIME, TIME + 10 * DAY),
        Ok(27431062)
    );
}

#[test]
fn test_calc_user_reward_amount_zero_epochs() {
    let amount = 100_000_000_000;
    assert_eq!(calc_user_reward_amount(10, TIME, 10, 1, 5, amount, TIME, TIME + 5 * DAY), Ok(0));
    assert_eq!(
        calc_user_reward_amount(10, TIME, 10, 1, 5, amount, TIME + 5 * DAY, TIME + 5 * DAY),
        Ok(0)
    );
    assert_eq!(
        calc_user_reward_amount(10, TIME, 10, 1, 5, amount, TIME + 5 * DAY, TIME + 10 * DAY),
        Ok(0)
    );
    assert_eq!(
        calc_user_reward_amount(10, TIME, 10, 1, 5, amount, TIME + 5 * DAY, TIME + 15 * DAY),
        Ok(0)
    );
    assert_eq!(
        calc_user_reward_amount(10, TIME, 10, 1, 5, amount, TIME + 10 * DAY, TIME + 10 * DAY),
        Ok(0)
    );
    assert_eq!(
        calc_user_reward_amount(10, TIME, 10, 1, 5, amount, TIME + 15 * DAY, TIME + 15 * DAY),
        Ok(0)
    );
    assert_eq!(
        calc_user_reward_amount(10, TIME, 10, 1, 5, amount, TIME + 15 * DAY, TIME + 20 * DAY),
        Ok(0)
    );
}

#[test]
fn test_calc_user_past_epoch() {
    let e = |stake: i64, now: i64| calc_user_past_epochs(TIME, TIME + stake * DAY, TIME + now * DAY, 10);

    assert_eq!(e(0, 0), Ok(vec![]));
    assert_eq!(e(0, 5), Ok(vec![]));
    assert_eq!(e(0, 9), Ok(vec![]));
    assert_eq!(e(0, 10), Ok(vec![1]));
    assert_eq!(e(0, 11), Ok(vec![1]));
    assert_eq!(e(0, 19), Ok(vec![1]));
    assert_eq!(e(0, 20), Ok(vec![1, 2]));
    assert_eq!(e(0, 21), Ok(vec![1, 2]));
    assert_eq!(e(0, 30), Ok(vec![1, 2, 3]));

    assert_eq!(e(5, 5), Ok(vec![]));
    assert_eq!(e(5, 10), Ok(vec![]));
    assert_eq!(e(5, 15), Ok(vec![]));
    assert_eq!(e(5, 20), Ok(vec![2]));
    assert_eq!(e(5, 25), Ok(vec![2]));
    assert_eq!(e(5, 30), Ok(vec![2, 3]));
    assert_eq!(e(5, 35), Ok(vec![2, 3]));
    assert_eq!(e(5, 40), Ok(vec![2, 3, 4]));
    assert_eq!(e(9, 10), Ok(vec![]));
    assert_eq!(e(9, 20), Ok(vec![2]));

    assert_eq!(e(30, 30), Ok(vec![]));
    assert_eq!(e(30, 35), Ok(vec![]));
    assert_eq!(e(30, 40), Ok(vec![4]));
    assert_eq!(e(30, 45), Ok(vec![4]));
    assert_eq!(e(30, 50), Ok(vec![4, 5]));
    assert_eq!(e(30, 55), Ok(vec![4, 5]));
    assert_eq!(e(30, 60), Ok(vec![4, 5, 6]));

    assert_eq!(e(35, 35), Ok(vec![]));
    assert_eq!(e(35, 40), Ok(vec![]));
    assert_eq!(e(35, 45), Ok(vec![]));
    assert_eq!(e(35, 50), Ok(vec![5]));
    assert_eq!(e(35, 55), Ok(vec![5]));
    assert_eq!(e(35, 60), Ok(vec![5, 6]));
    assert_eq!(e(35, 65), Ok(vec![5, 6]));
    assert_eq!(e(35, 70), Ok(vec![5, 6, 7]));
}

#[test]
fn test_get_epoch_by_time() {
    assert_eq!(get_epoch_by_time(TIME, TIME, 10), Ok((1, true)));
    assert_eq!(get_epoch_by_time(TIME, TIME + 5 * DAY, 10), Ok((1, false)));
    assert_eq!(get_epoch_by_time(TIME, TIME + 10 * DAY, 10), Ok((2, true)));
    assert_eq!(get_epoch_by_time(TIME, TIME + 15 * DAY, 10), Ok((2, false)));
    assert_eq!(get_epoch_by_time(TIME, TIME + 20 * DAY, 10), Ok((3, true)));
    assert_eq!(get_epoch_by_time(TIME, TIME + 299 * DAY, 10), Ok((30, false)));
    assert_eq!(get_epoch_by_time(TIME, TIME + 300 * DAY, 10), Ok((31, true)));
    assert_eq!(get_epoch_by_time(TIME, TIME + 301 * DAY, 10), Ok((31, false)));
    assert_eq!(get_epoch_by_time(TIME, TIME + 3000 * DAY, 10), Ok((301, true)));
    assert_eq!(get_epoch_by_time(TIME, TIME + 3001 * DAY, 10), Ok((301, false)));
}

#[test]
fn test_get_apr_by_epoch() {
    assert_eq!(get_apr_by_epoch(1, 45, 1, 5), Ok(45));
    assert_eq!(get_apr_by_epoch(1, 45, 2, 5), Ok(45));
    assert_eq!(get_apr_by_epoch(1, 45, 10, 5), Ok(45));
    assert_eq!(get_apr_by_epoch(1, 45, 10, 40), Ok(45));
    assert_eq!(get_apr_by_epoch(2, 45, 1, 5), Ok(44));
    assert_eq!(get_apr_by_epoch(3, 45, 1, 5), Ok(43));
    assert_eq!(get_apr_by_epoch(10, 45, 1, 5), Ok(36));
    assert_eq!(get_apr_by_epoch(2, 45, 2, 5), Ok(43));
    assert_eq!(get_apr_by_epoch(3, 45, 2, 5), Ok(41));
    assert_eq!(get_apr_by_epoch(40, 45, 1, 5), Ok(6));
    assert_eq!(get_apr_by_epoch(41, 45, 1, 5), Ok(5));
    assert_eq!(get_apr_by_epoch(42, 45, 1, 5), Ok(5));
    assert_eq!(get_apr_by_epoch(43, 45, 1, 5), Ok(5));
    assert_eq!(get_apr_by_epoch(44, 45, 1, 5), Ok(5));
}

#[test]
fn royalty_above_one_hundred_percent_overflows() {
    assert_eq!(calc_royalty_amount(255, u64::MAX), Err(ErrorKind::Overflow));
    assert_eq!(calc_royalty_amount(200, 10), Ok(20));
}

#[test]
fn royalty_rounds_down() {
    assert_eq!(calc_royalty_amount(8, 999), Ok(79));
    assert_eq!(calc_royalty_amount(100, 12345), Ok(12345));
    assert_eq!(calc_royalty_amount(1, 99), Ok(0));
}

#[test]
fn reward_without_any_bound_overflows() {
    assert_eq!(
        calc_reward_amount(5, 0, 1, 100, 0),
        Err(ggwp_ledger::fighting::FightingError::Overflow)
    );
}

#[test]
fn epoch_before_start_is_refused() {
    assert!(get_epoch_by_time(TIME, TIME - 1, 10).is_err());
    assert!(get_epoch_by_time(TIME, TIME, 0).is_err());
}

#[test]
fn apr_floor_is_held() {
    for epoch in 41..200 {
        assert_eq!(get_apr_by_epoch(epoch, 45, 1, 5), Ok(5));
    }
    assert_eq!(get_apr_by_epoch(u64::MAX, 45, 255, 5), Ok(5));
}

#[test]
fn stake_crossing_epochs_boundary_counts() {
    assert_eq!(calc_user_past_epochs(TIME, TIME, TIME + 10 * DAY, 10), Ok(vec![1]));
    assert_eq!(calc_user_past_epochs(TIME, TIME, TIME + 9 * DAY, 10), Ok(vec![]));
    assert_eq!(calc_user_reward_amount(10, TIME, 10, 1, 5, 1_000_000, TIME, TIME + 9 * DAY), Ok(0));
}

#[test]
fn compounding_over_two_epochs_uses_each_epochs_apr() {
    // Two epochs of one day at 45% and then 44%:
    // 1e9 * 36545/36500 = 1001232876.71..., then * 36544/36500 -> 1002439842 (floored).
    let r = calc_user_reward_amount(1, TIME, 45, 1, 5, 1_000_000_000, TIME, TIME + 2 * DAY);
    assert_eq!(r, Ok(2_439_842));
}

#[test]
fn accrual_rejects_non_positive_period() {
    let table = vec![row(1000, 5)];
    assert!(calc_earned_gpass(&table, 1000, 10, 5, 0).is_err());
    assert!(calc_earned_gpass(&table, 1000, 10, 5, -3).is_err());
}
