use options_vault::{
    borrow, claim_rewards, deposit, emergency_withdraw, execute_strategy, initialize_vault,
    pause_vault, unpause_vault, update_reward_rate, update_strategy_threshold, withdraw,
    ErrorCode, Identity, StrategyKind, User, Vault,
};

fn admin() -> Identity {
    Identity { id: 1 }
}

fn user() -> Identity {
    Identity { id: 2 }
}

#[test]
fn initialize_zeroes_counters() {
    let v = initialize_vault(admin(), 7);
    assert_eq!(v.bump, 7);
    assert_eq!(v.total_deposits, 0);
    assert_eq!(v.reward_rate, 10);
    assert_eq!(v.price_threshold, 0);
    assert_eq!(v.authority, admin());
    assert!(!v.paused);
    assert_eq!(v.total_profit, 0);
    assert_eq!(v.total_trades, 0);
    assert_eq!(v.last_strategy_execution, 0);
}

#[test]
fn scenario_deposit_then_withdraw_with_fee() {
    let mut v = initialize_vault(admin(), 0);
    let ev = deposit(&mut v, user(), 100).unwrap();
    assert_eq!(v.total_deposits, 100);
    assert_eq!(ev.user, user());
    assert_eq!(ev.amount, 100);

    let ev = withdraw(&mut v, user(), 40).unwrap();
    assert_eq!(ev.fee, 2);
    assert_eq!(ev.amount, 38);
    assert_eq!(v.total_deposits, 60);

    let before = v;
    assert_eq!(withdraw(&mut v, user(), 1000), Err(ErrorCode::InsufficientFunds));
    assert_eq!(v, before);
    assert_eq!(v.total_deposits, 60);
}

#[test]
fn scenario_claim_folds_rewards_into_pool() {
    let mut v = initialize_vault(admin(), 0);
    assert_eq!(v.reward_rate, 10);
    let mut u = User { reward_balance: 0, last_staked_timestamp: 0 };
    claim_rewards(&mut v, &mut u, 100).unwrap();
    // duration 100, multiplier 1, accrued 1 * 10 * 100 = 1000
    assert_eq!(v.total_deposits, 1000);
    assert_eq!(u.reward_balance, 0);
    assert_eq!(u.last_staked_timestamp, 100);
}

#[test]
fn conservation_over_a_history() {
    let mut v = initialize_vault(admin(), 0);
    deposit(&mut v, user(), 500).unwrap();
    deposit(&mut v, user(), 250).unwrap();
    withdraw(&mut v, user(), 100).unwrap();
    emergency_withdraw(&mut v, user(), 50).unwrap();
    assert_eq!(withdraw(&mut v, user(), 10_000), Err(ErrorCode::InsufficientFunds));
    // 500 + 250 deposited, 100 + 50 withdrawn in full (fee included)
    assert_eq!(v.total_deposits, 500 + 250 - 100 - 50);
}

#[test]
fn fee_rounds_down() {
    let mut v = initialize_vault(admin(), 0);
    deposit(&mut v, user(), 100).unwrap();
    let ev = withdraw(&mut v, user(), 39).unwrap();
    assert_eq!(ev.fee, 1); // 39 * 5 / 100 rounded down
    assert_eq!(ev.amount, 38);
    assert_eq!(v.total_deposits, 61);
}

#[test]
fn withdraw_of_zero_is_free() {
    let mut v = initialize_vault(admin(), 0);
    deposit(&mut v, user(), 10).unwrap();
    let ev = withdraw(&mut v, user(), 0).unwrap();
    assert_eq!(ev.fee, 0);
    assert_eq!(ev.amount, 0);
    assert_eq!(v.total_deposits, 10);
}

#[test]
fn emergency_withdraw_takes_no_fee() {
    let mut v = initialize_vault(admin(), 0);
    deposit(&mut v, user(), 100).unwrap();
    emergency_withdraw(&mut v, user(), 100).unwrap();
    assert_eq!(v.total_deposits, 0);
}

#[test]
fn emergency_withdraw_checks_balance() {
    let mut v = initialize_vault(admin(), 0);
    deposit(&mut v, user(), 10).unwrap();
    let before = v;
    assert_eq!(emergency_withdraw(&mut v, user(), 11), Err(ErrorCode::InsufficientFunds));
    assert_eq!(v, before);
}

#[test]
fn pause_gates_deposit_withdraw_strategy_and_borrow() {
    let mut v = initialize_vault(admin(), 0);
    deposit(&mut v, user(), 100).unwrap();
    pause_vault(&mut v, admin()).unwrap();
    assert!(v.paused);

    let before = v;
    assert_eq!(deposit(&mut v, user(), 1), Err(ErrorCode::VaultPaused));
    assert_eq!(v, before);
    assert_eq!(withdraw(&mut v, user(), 1), Err(ErrorCode::VaultPaused));
    assert_eq!(v, before);
    assert_eq!(execute_strategy(&mut v, 1_000_000, 5), Err(ErrorCode::VaultPaused));
    assert_eq!(v, before);
    assert_eq!(borrow(&v, 1), Err(ErrorCode::VaultPaused));
    assert_eq!(v, before);
}

#[test]
fn emergency_withdraw_ignores_pause() {
    let mut v = initialize_vault(admin(), 0);
    deposit(&mut v, user(), 100).unwrap();
    pause_vault(&mut v, admin()).unwrap();
    emergency_withdraw(&mut v, user(), 40).unwrap();
    assert_eq!(v.total_deposits, 60);
}

#[test]
fn admin_operations_work_while_paused() {
    let mut v = initialize_vault(admin(), 0);
    pause_vault(&mut v, admin()).unwrap();
    update_reward_rate(&mut v, admin(), 99).unwrap();
    assert_eq!(v.reward_rate, 99);
    update_strategy_threshold(&mut v, admin(), 1234).unwrap();
    assert_eq!(v.price_threshold, 1234);
    unpause_vault(&mut v, admin()).unwrap();
    assert!(!v.paused);
    deposit(&mut v, user(), 1).unwrap();
    assert_eq!(v.total_deposits, 1);
}

#[test]
fn admin_operations_reject_other_callers() {
    let mut v = initialize_vault(admin(), 0);
    let before = v;
    assert_eq!(update_reward_rate(&mut v, user(), 99), Err(ErrorCode::Unauthorized));
    assert_eq!(v, before);
    assert_eq!(update_strategy_threshold(&mut v, user(), 5), Err(ErrorCode::Unauthorized));
    assert_eq!(v, before);
    assert_eq!(pause_vault(&mut v, user()), Err(ErrorCode::Unauthorized));
    assert_eq!(v, before);
    assert_eq!(unpause_vault(&mut v, user()), Err(ErrorCode::Unauthorized));
    assert_eq!(v, before);
}

#[test]
fn cooldown_gates_the_second_execution() {
    let mut v = initialize_vault(admin(), 0);
    // last execution time starts at 0, so the first run needs time >= 3600
    assert_eq!(
        execute_strategy(&mut v, 3599, 5),
        Err(ErrorCode::StrategyExecutionTooSoon)
    );
    execute_strategy(&mut v, 3600, 5).unwrap();
    assert_eq!(v.last_strategy_execution, 3600);

    let before = v;
    assert_eq!(
        execute_strategy(&mut v, 3600 + 3599, 5),
        Err(ErrorCode::StrategyExecutionTooSoon)
    );
    assert_eq!(v, before);

    execute_strategy(&mut v, 7200, 5).unwrap();
    assert_eq!(v.last_strategy_execution, 7200);
    assert_eq!(v.total_trades, 2);
}

#[test]
fn strategy_branches_on_the_price_threshold() {
    let mut v = initialize_vault(admin(), 0);
    update_strategy_threshold(&mut v, admin(), 100).unwrap();

    let ev = execute_strategy(&mut v, 3600, 101).unwrap();
    assert_eq!(ev.strategy, StrategyKind::CoveredCall);
    assert_eq!(ev.profit_or_loss, 1000);
    assert_eq!(ev.market_price, 101);
    assert_eq!(ev.total_trades, 1);
    assert_eq!(v.total_profit, 1000);

    let ev = execute_strategy(&mut v, 7200, 100).unwrap();
    assert_eq!(ev.strategy, StrategyKind::CashSecuredPut);
    assert_eq!(ev.profit_or_loss, -500);
    assert_eq!(v.total_profit, 500);
    assert_eq!(v.total_trades, 2);
}

#[test]
fn borrow_allows_up_to_three_times_the_pool() {
    let mut v = initialize_vault(admin(), 0);
    deposit(&mut v, user(), 100).unwrap();
    assert_eq!(borrow(&v, 300), Ok(()));
    assert_eq!(borrow(&v, 301), Err(ErrorCode::ExcessiveLeverage));
    assert_eq!(v.total_deposits, 100); // authorization moves no funds
}

#[test]
fn borrow_cap_does_not_overflow_on_a_full_pool() {
    let v = Vault { total_deposits: u64::MAX, ..initialize_vault(admin(), 0) };
    assert_eq!(borrow(&v, u64::MAX), Ok(()));
}

#[test]
fn claim_twice_at_the_same_time_adds_nothing() {
    let mut v = initialize_vault(admin(), 0);
    let mut u = User { reward_balance: 0, last_staked_timestamp: 0 };
    claim_rewards(&mut v, &mut u, 100).unwrap();
    assert_eq!(u.reward_balance, 0);
    let pool = v.total_deposits;
    claim_rewards(&mut v, &mut u, 100).unwrap();
    assert_eq!(v.total_deposits, pool);
    assert_eq!(u.reward_balance, 0);
    assert_eq!(u.last_staked_timestamp, 100);
}

#[test]
fn claim_doubles_rewards_after_thirty_days() {
    let mut v = initialize_vault(admin(), 0);
    let mut u = User { reward_balance: 0, last_staked_timestamp: 0 };
    let thirty_days: i64 = 30 * 86400;
    claim_rewards(&mut v, &mut u, thirty_days).unwrap();
    // duration 2592000, multiplier 2, accrued 2 * 10 * 2592000
    assert_eq!(v.total_deposits, 51_840_000);
}

#[test]
fn claim_just_below_the_boost_threshold_is_not_doubled() {
    let mut v = initialize_vault(admin(), 0);
    let mut u = User { reward_balance: 0, last_staked_timestamp: 0 };
    claim_rewards(&mut v, &mut u, 30 * 86400 - 1).unwrap();
    // duration 2591999, multiplier 1, accrued 1 * 10 * 2591999
    assert_eq!(v.total_deposits, 25_919_990);
}

#[test]
fn claim_rejects_a_clock_regression() {
    let mut v = initialize_vault(admin(), 0);
    let mut u = User { reward_balance: 0, last_staked_timestamp: 100 };
    let (vb, ub) = (v, u);
    assert_eq!(claim_rewards(&mut v, &mut u, 50), Err(ErrorCode::ClockRegression));
    assert_eq!(v, vb);
    assert_eq!(u, ub);
}

#[test]
fn deposit_overflow_is_refused() {
    let mut v = initialize_vault(admin(), 0);
    v.total_deposits = u64::MAX;
    let before = v;
    assert_eq!(deposit(&mut v, user(), 1), Err(ErrorCode::ArithmeticOverflow));
    assert_eq!(v, before);
}

#[test]
fn strategy_profit_overflow_is_refused() {
    let mut v = initialize_vault(admin(), 0);
    v.total_profit = i64::MAX;
    let before = v;
    // price above the threshold would add 1000 to an already full counter
    assert_eq!(execute_strategy(&mut v, 3600, 5), Err(ErrorCode::ArithmeticOverflow));
    assert_eq!(v, before);
}

#[test]
fn strategy_loss_underflow_is_refused() {
    let mut v = initialize_vault(admin(), 0);
    v.total_profit = i64::MIN;
    let before = v;
    // price at the threshold would subtract 500 from an already empty counter
    assert_eq!(execute_strategy(&mut v, 3600, 0), Err(ErrorCode::ArithmeticOverflow));
    assert_eq!(v, before);
}

#[test]
fn trade_counter_overflow_is_refused() {
    let mut v = initialize_vault(admin(), 0);
    v.total_trades = u64::MAX;
    v.total_profit = -1000;
    let before = v;
    assert_eq!(execute_strategy(&mut v, 3600, 5), Err(ErrorCode::ArithmeticOverflow));
    assert_eq!(v, before);
}

#[test]
fn claim_overflow_is_refused() {
    let mut v = initialize_vault(admin(), 0);
    update_reward_rate(&mut v, admin(), u64::MAX).unwrap();
    let mut u = User { reward_balance: 0, last_staked_timestamp: 0 };
    let (vb, ub) = (v, u);
    assert_eq!(claim_rewards(&mut v, &mut u, 2), Err(ErrorCode::ArithmeticOverflow));
    assert_eq!(v, vb);
    assert_eq!(u, ub);
}

#[test]
fn claim_pool_overflow_is_refused() {
    let mut v = initialize_vault(admin(), 0);
    v.total_deposits = u64::MAX;
    let mut u = User { reward_balance: 1, last_staked_timestamp: 0 };
    let (vb, ub) = (v, u);
    assert_eq!(claim_rewards(&mut v, &mut u, 0), Err(ErrorCode::ArithmeticOverflow));
    assert_eq!(v, vb);
    assert_eq!(u, ub);
}

#[test]
fn strategy_rejects_a_negative_clock() {
    let mut v = initialize_vault(admin(), 0);
    assert_eq!(
        execute_strategy(&mut v, -1, 5),
        Err(ErrorCode::StrategyExecutionTooSoon)
    );
    assert_eq!(v.total_trades, 0);
}

#[test]
fn error_messages_name_the_kind() {
    assert_eq!(ErrorCode::InsufficientFunds.message(), "insufficient funds in the vault");
    assert_eq!(ErrorCode::Unauthorized.message(), "unauthorized action");
    assert_eq!(ErrorCode::VaultPaused.message(), "the vault is paused");
    assert_eq!(
        ErrorCode::ExcessiveLeverage.message(),
        "the requested leverage exceeds the maximum allowed"
    );
    assert_eq!(ErrorCode::StrategyExecutionTooSoon.message(), "strategy execution too soon");
    assert_eq!(ErrorCode::ArithmeticOverflow.message(), "arithmetic overflow on a counter");
    assert_eq!(ErrorCode::ClockRegression.message(), "the clock moved backwards");
    assert_eq!(
        ErrorCode::TransferFailed.message(),
        "the external asset transfer was rejected"
    );
}
