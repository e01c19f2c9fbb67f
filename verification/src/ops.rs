//! The vault operations: balance accounting, strategy execution, reward
//! compounding and administration.
//!
//! Each executable operation is specified against a spec-level
//! transition: `*_allowed` says exactly when the operation succeeds,
//! `*_error` which refusal it returns otherwise, and `*_next` the state
//! after the call (the old state when the operation is refused, so a
//! refusal never changes anything).
//!
//! Fund-moving operations only account: the host performs the external
//! transfers for the amounts these functions report, before committing
//! the returned state.

use vstd::prelude::*;

use crate::errors::ErrorCode;
use crate::state::{
    DepositEvent, Identity, StrategyExecutedEvent, StrategyKind, User, Vault, WithdrawEvent,
    BOOST_DURATION_SECONDS, BOOST_MULTIPLIER, CASH_SECURED_PUT_PAYOUT, COOLDOWN_SECONDS,
    COVERED_CALL_PAYOUT, FEE_PERCENTAGE, INITIAL_REWARD_RATE, MAX_LEVERAGE,
};

verus! {

// ---------------------------------------------------------------------
// Initialization
// ---------------------------------------------------------------------

/// The state of a freshly initialized vault: zeroed counters, unpaused,
/// the default reward rate, and the given administrative authority.
pub open spec fn initial_vault(authority: Identity, bump: u8) -> Vault {
    Vault {
        bump,
        total_deposits: 0,
        reward_rate: INITIAL_REWARD_RATE,
        price_threshold: 0,
        authority,
        paused: false,
        total_profit: 0,
        total_trades: 0,
        last_strategy_execution: 0,
    }
}

/// Create the vault record with `authority` as its sole admin.
pub fn initialize_vault(authority: Identity, bump: u8) -> (v: Vault)
    ensures
        v == initial_vault(authority, bump),
        v.wf(),
{
    Vault {
        bump,
        total_deposits: 0,
        reward_rate: INITIAL_REWARD_RATE,
        price_threshold: 0,
        authority,
        paused: false,
        total_profit: 0,
        total_trades: 0,
        last_strategy_execution: 0,
    }
}

// ---------------------------------------------------------------------
// Deposit
// ---------------------------------------------------------------------

/// A deposit succeeds when the vault is not paused and the pool can
/// take the amount without overflowing.
pub open spec fn deposit_allowed(v: Vault, amount: u64) -> bool {
    &&& !v.paused
    &&& v.total_deposits + amount <= u64::MAX
}

/// The refusal a disallowed deposit returns; the pause gate is checked
/// before the overflow check.
pub open spec fn deposit_error(v: Vault, amount: u64) -> ErrorCode {
    if v.paused {
        ErrorCode::VaultPaused
    } else {
        ErrorCode::ArithmeticOverflow
    }
}

/// The vault after a deposit: the amount joins the pool, every other
/// field is untouched; a refused deposit changes nothing.
pub open spec fn deposit_next(v: Vault, amount: u64) -> Vault {
    if deposit_allowed(v, amount) {
        Vault { total_deposits: (v.total_deposits + amount) as u64, ..v }
    } else {
        v
    }
}

/// Add `amount` to the pooled principal. The host must have moved
/// `amount` from the user's holding account into the vault's before
/// committing the new state.
pub fn deposit(vault: &mut Vault, user: Identity, amount: u64) -> (r: Result<
    DepositEvent,
    ErrorCode,
>)
    ensures
        *final(vault) == deposit_next(*old(vault), amount),
        deposit_allowed(*old(vault), amount) ==> (r matches Ok(ev) && ev.user == user
            && ev.amount == amount),
        !deposit_allowed(*old(vault), amount) ==> r == Err::<DepositEvent, ErrorCode>(
            deposit_error(*old(vault), amount),
        ),
{
    if vault.paused {
        return Err(ErrorCode::VaultPaused);
    }
    if amount > u64::MAX - vault.total_deposits {
        return Err(ErrorCode::ArithmeticOverflow);
    }
    vault.total_deposits = vault.total_deposits + amount;
    Ok(DepositEvent { user, amount })
}

// ---------------------------------------------------------------------
// Withdrawal
// ---------------------------------------------------------------------

/// The fee on an ordinary withdrawal: `amount * 5 / 100`, rounded down.
pub open spec fn withdraw_fee(amount: u64) -> int {
    amount * FEE_PERCENTAGE / 100
}

/// A withdrawal succeeds when the vault is not paused and the pool
/// holds at least the requested amount.
pub open spec fn withdraw_allowed(v: Vault, amount: u64) -> bool {
    &&& !v.paused
    &&& amount <= v.total_deposits
}

/// The refusal a disallowed withdrawal returns; the pause gate is
/// checked before the balance.
pub open spec fn withdraw_error(v: Vault, amount: u64) -> ErrorCode {
    if v.paused {
        ErrorCode::VaultPaused
    } else {
        ErrorCode::InsufficientFunds
    }
}

/// The vault after a withdrawal: the full pre-fee amount leaves the
/// pool (the fee is a transfer destination, not a forgiven balance).
pub open spec fn withdraw_next(v: Vault, amount: u64) -> Vault {
    if withdraw_allowed(v, amount) {
        Vault { total_deposits: (v.total_deposits - amount) as u64, ..v }
    } else {
        v
    }
}

/// Remove `amount` from the pooled principal, splitting it into a net
/// part for the user and a fee part for the fee collector. The host
/// must perform both transfers — `amount - fee` to the user and `fee`
/// to the fee collector — and commit the new state only if both
/// succeed.
pub fn withdraw(vault: &mut Vault, user: Identity, amount: u64) -> (r: Result<
    WithdrawEvent,
    ErrorCode,
>)
    ensures
        *final(vault) == withdraw_next(*old(vault), amount),
        withdraw_allowed(*old(vault), amount) ==> (r matches Ok(ev) && ev.user == user
            && ev.fee == withdraw_fee(amount) && ev.amount == amount - withdraw_fee(amount)),
        !withdraw_allowed(*old(vault), amount) ==> r == Err::<WithdrawEvent, ErrorCode>(
            withdraw_error(*old(vault), amount),
        ),
{
    if vault.paused {
        return Err(ErrorCode::VaultPaused);
    }
    if vault.total_deposits < amount {
        return Err(ErrorCode::InsufficientFunds);
    }
    proof {
        assert((amount as int) * (FEE_PERCENTAGE as int) <= (u64::MAX as int) * (FEE_PERCENTAGE
            as int)) by (nonlinear_arith)
            requires
                amount <= u64::MAX,
        ;
        assert(amount * FEE_PERCENTAGE / 100 <= amount) by (nonlinear_arith);
    }
    let fee_wide: u128 = (amount as u128) * (FEE_PERCENTAGE as u128) / 100;
    let fee: u64 = fee_wide as u64;
    let net: u64 = amount - fee;
    vault.total_deposits = vault.total_deposits - amount;
    Ok(WithdrawEvent { user, amount: net, fee })
}

// ---------------------------------------------------------------------
// Emergency withdrawal
// ---------------------------------------------------------------------

/// An emergency withdrawal checks only the balance: it is deliberately
/// not gated by the pause flag, so it stays usable as a safety valve
/// while the vault is paused.
pub open spec fn emergency_withdraw_allowed(v: Vault, amount: u64) -> bool {
    amount <= v.total_deposits
}

/// The vault after an emergency withdrawal: the full amount leaves the
/// pool with no fee.
pub open spec fn emergency_withdraw_next(v: Vault, amount: u64) -> Vault {
    if emergency_withdraw_allowed(v, amount) {
        Vault { total_deposits: (v.total_deposits - amount) as u64, ..v }
    } else {
        v
    }
}

/// Remove `amount` from the pooled principal with no fee, even while
/// the vault is paused. The host must transfer the full `amount` to the
/// user before committing the new state.
pub fn emergency_withdraw(vault: &mut Vault, user: Identity, amount: u64) -> (r: Result<
    (),
    ErrorCode,
>)
    ensures
        *final(vault) == emergency_withdraw_next(*old(vault), amount),
        emergency_withdraw_allowed(*old(vault), amount) <==> r == Ok::<(), ErrorCode>(()),
        !emergency_withdraw_allowed(*old(vault), amount) ==> r == Err::<(), ErrorCode>(
            ErrorCode::InsufficientFunds,
        ),
{
    if vault.total_deposits < amount {
        return Err(ErrorCode::InsufficientFunds);
    }
    vault.total_deposits = vault.total_deposits - amount;
    Ok(())
}

// ---------------------------------------------------------------------
// Borrow authorization
// ---------------------------------------------------------------------

/// A borrow is authorized when the vault is not paused and the request
/// stays within `MAX_LEVERAGE` times the pooled principal.
pub open spec fn borrow_allowed(v: Vault, requested: u64) -> bool {
    &&& !v.paused
    &&& requested <= v.total_deposits * MAX_LEVERAGE
}

/// The refusal a disallowed borrow returns; the pause gate is checked
/// before the leverage cap.
pub open spec fn borrow_error(v: Vault, requested: u64) -> ErrorCode {
    if v.paused {
        ErrorCode::VaultPaused
    } else {
        ErrorCode::ExcessiveLeverage
    }
}

/// Authorize (but do not disburse) a borrow of `borrow_amount` against
/// the pool. Read-only: disbursement is delegated to an external
/// lending collaborator.
pub fn borrow(vault: &Vault, borrow_amount: u64) -> (r: Result<(), ErrorCode>)
    ensures
        borrow_allowed(*vault, borrow_amount) <==> r == Ok::<(), ErrorCode>(()),
        !borrow_allowed(*vault, borrow_amount) ==> r == Err::<(), ErrorCode>(
            borrow_error(*vault, borrow_amount),
        ),
{
    if vault.paused {
        return Err(ErrorCode::VaultPaused);
    }
    proof {
        assert((vault.total_deposits as int) * (MAX_LEVERAGE as int) <= (u64::MAX as int) * (
        MAX_LEVERAGE as int)) by (nonlinear_arith)
            requires
                vault.total_deposits <= u64::MAX,
        ;
    }
    let cap: u128 = (vault.total_deposits as u128) * (MAX_LEVERAGE as u128);
    if (borrow_amount as u128) > cap {
        return Err(ErrorCode::ExcessiveLeverage);
    }
    Ok(())
}

// ---------------------------------------------------------------------
// Strategy execution
// ---------------------------------------------------------------------

/// Which branch the strategy takes at the given market price: above the
/// threshold a covered call is sold, otherwise a cash-secured put.
pub open spec fn strategy_kind(v: Vault, market_price: u64) -> StrategyKind {
    if market_price > v.price_threshold {
        StrategyKind::CoveredCall
    } else {
        StrategyKind::CashSecuredPut
    }
}

/// The simulated outcome of the branch taken at the given market price.
pub open spec fn strategy_outcome(v: Vault, market_price: u64) -> i64 {
    if market_price > v.price_threshold {
        COVERED_CALL_PAYOUT
    } else {
        CASH_SECURED_PUT_PAYOUT
    }
}

/// The cooldown has elapsed when at least `COOLDOWN_SECONDS` have
/// passed since the last successful execution.
pub open spec fn cooldown_elapsed(v: Vault, now: i64) -> bool {
    now - v.last_strategy_execution >= COOLDOWN_SECONDS
}

/// A strategy execution succeeds when the vault is not paused, the
/// cooldown has elapsed, and both counters can take the update.
pub open spec fn execute_allowed(v: Vault, now: i64, market_price: u64) -> bool {
    &&& !v.paused
    &&& cooldown_elapsed(v, now)
    &&& i64::MIN <= v.total_profit + strategy_outcome(v, market_price) <= i64::MAX
    &&& v.total_trades + 1 <= u64::MAX
}

/// The refusal a disallowed execution returns: the pause gate first,
/// then the cooldown, then the counter overflow checks.
pub open spec fn execute_error(v: Vault, now: i64, market_price: u64) -> ErrorCode {
    if v.paused {
        ErrorCode::VaultPaused
    } else if !cooldown_elapsed(v, now) {
        ErrorCode::StrategyExecutionTooSoon
    } else {
        ErrorCode::ArithmeticOverflow
    }
}

/// The vault after a strategy execution: the outcome joins the profit
/// accumulator, the trade counter steps, and the execution time is
/// recorded; a refused execution changes nothing.
pub open spec fn execute_next(v: Vault, now: i64, market_price: u64) -> Vault {
    if execute_allowed(v, now, market_price) {
        Vault {
            total_profit: (v.total_profit + strategy_outcome(v, market_price)) as i64,
            total_trades: (v.total_trades + 1) as u64,
            last_strategy_execution: now,
            ..v
        }
    } else {
        v
    }
}

/// Run the time-gated strategy simulation at `current_time` against
/// `market_price`. The time is a caller-supplied clock reading; the
/// gating compares it with the recorded last execution.
pub fn execute_strategy(vault: &mut Vault, current_time: i64, market_price: u64) -> (r: Result<
    StrategyExecutedEvent,
    ErrorCode,
>)
    requires
        old(vault).wf(),
    ensures
        *final(vault) == execute_next(*old(vault), current_time, market_price),
        final(vault).wf(),
        execute_allowed(*old(vault), current_time, market_price) ==> (r matches Ok(ev)
            && ev.strategy == strategy_kind(*old(vault), market_price)
            && ev.market_price == market_price
            && ev.profit_or_loss == strategy_outcome(*old(vault), market_price)
            && ev.total_trades == old(vault).total_trades + 1),
        !execute_allowed(*old(vault), current_time, market_price) ==> r == Err::<
            StrategyExecutedEvent,
            ErrorCode,
        >(execute_error(*old(vault), current_time, market_price)),
{
    if vault.paused {
        return Err(ErrorCode::VaultPaused);
    }
    // A negative clock reading always lies within the cooldown, since the
    // recorded execution time is never negative.
    if current_time < 0 || current_time - vault.last_strategy_execution < COOLDOWN_SECONDS {
        return Err(ErrorCode::StrategyExecutionTooSoon);
    }
    let strategy: StrategyKind;
    let profit_or_loss: i64;
    if market_price > vault.price_threshold {
        strategy = StrategyKind::CoveredCall;
        profit_or_loss = COVERED_CALL_PAYOUT;
    } else {
        strategy = StrategyKind::CashSecuredPut;
        profit_or_loss = CASH_SECURED_PUT_PAYOUT;
    }
    let profit_fits: bool = if profit_or_loss >= 0 {
        vault.total_profit <= i64::MAX - profit_or_loss
    } else {
        vault.total_profit >= i64::MIN - profit_or_loss
    };
    if !profit_fits || vault.total_trades == u64::MAX {
        return Err(ErrorCode::ArithmeticOverflow);
    }
    vault.total_profit = vault.total_profit + profit_or_loss;
    vault.total_trades = vault.total_trades + 1;
    vault.last_strategy_execution = current_time;
    Ok(StrategyExecutedEvent {
        strategy,
        market_price,
        profit_or_loss,
        total_trades: vault.total_trades,
    })
}

// ---------------------------------------------------------------------
// Reward accrual and compounding
// ---------------------------------------------------------------------

/// Seconds elapsed since the user's last claim.
pub open spec fn reward_duration(u: User, now: i64) -> int {
    now - u.last_staked_timestamp
}

/// The accrual is doubled once the staking duration reaches the boost
/// threshold.
pub open spec fn reward_multiplier(duration: int) -> int {
    if duration >= BOOST_DURATION_SECONDS {
        BOOST_MULTIPLIER as int
    } else {
        1
    }
}

/// Reward units accrued since the last claim:
/// `multiplier * reward_rate * duration`.
pub open spec fn accrued_reward(v: Vault, u: User, now: i64) -> int {
    (reward_multiplier(reward_duration(u, now)) * v.reward_rate) * reward_duration(u, now)
}

/// A claim succeeds when the clock has not regressed and neither the
/// reward balance nor the pool overflows when the accrual is folded in.
pub open spec fn claim_allowed(v: Vault, u: User, now: i64) -> bool {
    &&& reward_duration(u, now) >= 0
    &&& u.reward_balance + accrued_reward(v, u, now) <= u64::MAX
    &&& v.total_deposits + u.reward_balance + accrued_reward(v, u, now) <= u64::MAX
}

/// The refusal a disallowed claim returns; a clock regression is
/// reported before any overflow.
pub open spec fn claim_error(v: Vault, u: User, now: i64) -> ErrorCode {
    if reward_duration(u, now) < 0 {
        ErrorCode::ClockRegression
    } else {
        ErrorCode::ArithmeticOverflow
    }
}

/// The vault after a claim: the user's whole reward balance, accrual
/// included, is folded into the pooled principal.
pub open spec fn claim_next_vault(v: Vault, u: User, now: i64) -> Vault {
    if claim_allowed(v, u, now) {
        Vault {
            total_deposits: (v.total_deposits + u.reward_balance + accrued_reward(v, u, now)) as u64,
            ..v
        }
    } else {
        v
    }
}

/// The user after a claim: the reward balance is zeroed and the claim
/// time recorded.
pub open spec fn claim_next_user(v: Vault, u: User, now: i64) -> User {
    if claim_allowed(v, u, now) {
        User { reward_balance: 0, last_staked_timestamp: now }
    } else {
        u
    }
}

/// Accrue time-weighted rewards for the user and auto-compound them —
/// the accrual and any previously accrued balance are folded straight
/// into the pooled principal, with no external asset transfer (a
/// minting-by-bookkeeping model), and the reward balance is reset.
pub fn claim_rewards(vault: &mut Vault, user: &mut User, current_time: i64) -> (r: Result<
    (),
    ErrorCode,
>)
    requires
        old(user).wf(),
    ensures
        *final(vault) == claim_next_vault(*old(vault), *old(user), current_time),
        *final(user) == claim_next_user(*old(vault), *old(user), current_time),
        final(user).wf(),
        claim_allowed(*old(vault), *old(user), current_time) <==> r == Ok::<(), ErrorCode>(()),
        !claim_allowed(*old(vault), *old(user), current_time) ==> r == Err::<(), ErrorCode>(
            claim_error(*old(vault), *old(user), current_time),
        ),
{
    if current_time < user.last_staked_timestamp {
        return Err(ErrorCode::ClockRegression);
    }
    let duration: i64 = current_time - user.last_staked_timestamp;
    let multiplier: u64 = if duration >= BOOST_DURATION_SECONDS {
        BOOST_MULTIPLIER
    } else {
        1
    };
    let rate_times_multiplier: u64 = match multiplier.checked_mul(vault.reward_rate) {
        Some(m) => m,
        None => {
            proof {
                // A multiplier of one cannot overflow, so the boost applied
                // and the duration is at least the boost threshold; the full
                // accrual is then at least the overflowing partial product.
                assert((1 as int) * (vault.reward_rate as int) == vault.reward_rate as int)
                    by (nonlinear_arith);
                assert(((multiplier as int) * (vault.reward_rate as int)) * (duration as int) >= (
                multiplier as int) * (vault.reward_rate as int)) by (nonlinear_arith)
                    requires
                        duration >= 1,
                        (multiplier as int) * (vault.reward_rate as int) >= 0,
                ;
            }
            return Err(ErrorCode::ArithmeticOverflow);
        },
    };
    let accrued: u64 = match rate_times_multiplier.checked_mul(duration as u64) {
        Some(a) => a,
        None => {
            return Err(ErrorCode::ArithmeticOverflow);
        },
    };
    let balance: u64 = match user.reward_balance.checked_add(accrued) {
        Some(b) => b,
        None => {
            return Err(ErrorCode::ArithmeticOverflow);
        },
    };
    let pooled: u64 = match vault.total_deposits.checked_add(balance) {
        Some(p) => p,
        None => {
            return Err(ErrorCode::ArithmeticOverflow);
        },
    };
    vault.total_deposits = pooled;
    user.reward_balance = 0;
    user.last_staked_timestamp = current_time;
    Ok(())
}

// ---------------------------------------------------------------------
// Administration
// ---------------------------------------------------------------------

/// Admin operations are allowed to the stored authority alone, paused
/// or not.
pub open spec fn admin_allowed(v: Vault, caller: Identity) -> bool {
    caller == v.authority
}

/// Set the reward rate. Authority-gated; never blocked by the pause
/// flag.
pub fn update_reward_rate(vault: &mut Vault, caller: Identity, new_rate: u64) -> (r: Result<
    (),
    ErrorCode,
>)
    ensures
        admin_allowed(*old(vault), caller) ==> r == Ok::<(), ErrorCode>(()) && *final(vault)
            == (Vault { reward_rate: new_rate, ..*old(vault) }),
        !admin_allowed(*old(vault), caller) ==> r == Err::<(), ErrorCode>(ErrorCode::Unauthorized)
            && *final(vault) == *old(vault),
{
    if caller.id != vault.authority.id {
        return Err(ErrorCode::Unauthorized);
    }
    vault.reward_rate = new_rate;
    Ok(())
}

/// Set the market-price threshold that selects the strategy branch.
/// Authority-gated; never blocked by the pause flag.
pub fn update_strategy_threshold(vault: &mut Vault, caller: Identity, new_threshold: u64) -> (r:
    Result<(), ErrorCode>)
    ensures
        admin_allowed(*old(vault), caller) ==> r == Ok::<(), ErrorCode>(()) && *final(vault)
            == (Vault { price_threshold: new_threshold, ..*old(vault) }),
        !admin_allowed(*old(vault), caller) ==> r == Err::<(), ErrorCode>(ErrorCode::Unauthorized)
            && *final(vault) == *old(vault),
{
    if caller.id != vault.authority.id {
        return Err(ErrorCode::Unauthorized);
    }
    vault.price_threshold = new_threshold;
    Ok(())
}

/// Pause the vault: deposits, withdrawals, strategy execution and
/// borrow authorization are refused until `unpause_vault`.
/// Authority-gated.
pub fn pause_vault(vault: &mut Vault, caller: Identity) -> (r: Result<(), ErrorCode>)
    ensures
        admin_allowed(*old(vault), caller) ==> r == Ok::<(), ErrorCode>(()) && *final(vault)
            == (Vault { paused: true, ..*old(vault) }),
        !admin_allowed(*old(vault), caller) ==> r == Err::<(), ErrorCode>(ErrorCode::Unauthorized)
            && *final(vault) == *old(vault),
{
    if caller.id != vault.authority.id {
        return Err(ErrorCode::Unauthorized);
    }
    vault.paused = true;
    Ok(())
}

/// Lift the pause. Authority-gated.
pub fn unpause_vault(vault: &mut Vault, caller: Identity) -> (r: Result<(), ErrorCode>)
    ensures
        admin_allowed(*old(vault), caller) ==> r == Ok::<(), ErrorCode>(()) && *final(vault)
            == (Vault { paused: false, ..*old(vault) }),
        !admin_allowed(*old(vault), caller) ==> r == Err::<(), ErrorCode>(ErrorCode::Unauthorized)
            && *final(vault) == *old(vault),
{
    if caller.id != vault.authority.id {
        return Err(ErrorCode::Unauthorized);
    }
    vault.paused = false;
    Ok(())
}

} // verus!
