//! Laws of the vault ledger that span more than one operation, stated
//! over the spec-level transitions of [`crate::ops`] and proved here.

use vstd::prelude::*;

use crate::errors::ErrorCode;
use crate::ops::{
    admin_allowed, borrow_allowed, borrow_error, claim_allowed, claim_next_user, claim_next_vault,
    deposit_allowed, deposit_error, deposit_next, emergency_withdraw_allowed,
    emergency_withdraw_next, execute_allowed, execute_error, execute_next, strategy_outcome,
    withdraw_allowed, withdraw_error, withdraw_next,
};
use crate::state::{Identity, User, Vault, COOLDOWN_SECONDS, MAX_LEVERAGE};

verus! {

// ---------------------------------------------------------------------
// Conservation of the pool over balance operations
// ---------------------------------------------------------------------

/// One balance-mutating request against the pool, as a value, so that
/// whole histories of requests can be reasoned about.
pub enum PoolOp {
    Deposit { amount: u64 },
    Withdraw { amount: u64 },
    EmergencyWithdraw { amount: u64 },
}

/// The vault after one pool operation; a refused operation leaves the
/// vault unchanged.
pub open spec fn pool_op_next(v: Vault, op: PoolOp) -> Vault {
    match op {
        PoolOp::Deposit { amount } => deposit_next(v, amount),
        PoolOp::Withdraw { amount } => withdraw_next(v, amount),
        PoolOp::EmergencyWithdraw { amount } => emergency_withdraw_next(v, amount),
    }
}

/// What one operation pays into the pool: the amount of a successful
/// deposit, nothing otherwise.
pub open spec fn pool_op_inflow(v: Vault, op: PoolOp) -> int {
    match op {
        PoolOp::Deposit { amount } => if deposit_allowed(v, amount) {
            amount as int
        } else {
            0
        },
        PoolOp::Withdraw { .. } => 0,
        PoolOp::EmergencyWithdraw { .. } => 0,
    }
}

/// What one operation takes out of the pool: the full pre-fee amount of
/// a successful withdrawal (the fee is part of what leaves the pool),
/// nothing otherwise.
pub open spec fn pool_op_outflow(v: Vault, op: PoolOp) -> int {
    match op {
        PoolOp::Deposit { .. } => 0,
        PoolOp::Withdraw { amount } => if withdraw_allowed(v, amount) {
            amount as int
        } else {
            0
        },
        PoolOp::EmergencyWithdraw { amount } => if emergency_withdraw_allowed(v, amount) {
            amount as int
        } else {
            0
        },
    }
}

/// The vault after a whole history of pool operations, applied in order.
pub open spec fn run_pool_ops(v: Vault, ops: Seq<PoolOp>) -> Vault
    decreases ops.len(),
{
    if ops.len() == 0 {
        v
    } else {
        run_pool_ops(pool_op_next(v, ops[0]), ops.drop_first())
    }
}

/// Everything the history pays into the pool, counting each operation
/// at the state it actually meets.
pub open spec fn total_inflow(v: Vault, ops: Seq<PoolOp>) -> int
    decreases ops.len(),
{
    if ops.len() == 0 {
        0
    } else {
        pool_op_inflow(v, ops[0]) + total_inflow(pool_op_next(v, ops[0]), ops.drop_first())
    }
}

/// Everything the history takes out of the pool.
pub open spec fn total_outflow(v: Vault, ops: Seq<PoolOp>) -> int
    decreases ops.len(),
{
    if ops.len() == 0 {
        0
    } else {
        pool_op_outflow(v, ops[0]) + total_outflow(pool_op_next(v, ops[0]), ops.drop_first())
    }
}

/// Conservation: over any history of deposits and withdrawals, the
/// pooled principal is the starting principal plus everything deposited
/// minus the full amount of everything withdrawn (fee included in the
/// deduction; it is paid to a separate destination, not forgiven).
pub proof fn lemma_conservation(v: Vault, ops: Seq<PoolOp>)
    ensures
        run_pool_ops(v, ops).total_deposits == v.total_deposits + total_inflow(v, ops)
            - total_outflow(v, ops),
    decreases ops.len(),
{
    if ops.len() > 0 {
        let v1 = pool_op_next(v, ops[0]);
        assert(v1.total_deposits == v.total_deposits + pool_op_inflow(v, ops[0]) - pool_op_outflow(
            v,
            ops[0],
        ));
        lemma_conservation(v1, ops.drop_first());
    }
}

// ---------------------------------------------------------------------
// The pool never goes negative
// ---------------------------------------------------------------------

/// No negative pool: the pooled principal is an unsigned count and so
/// never below zero; a withdrawal that would overdraw it is refused
/// with `InsufficientFunds` and changes nothing.
pub proof fn lemma_no_negative_pool(v: Vault, amount: u64)
    ensures
        v.total_deposits >= 0,
        pool_op_next(v, PoolOp::Withdraw { amount }).total_deposits >= 0,
        pool_op_next(v, PoolOp::EmergencyWithdraw { amount }).total_deposits >= 0,
        amount > v.total_deposits ==> !withdraw_allowed(v, amount) && withdraw_next(v, amount) == v
            && (!v.paused ==> withdraw_error(v, amount) == ErrorCode::InsufficientFunds),
        amount > v.total_deposits ==> !emergency_withdraw_allowed(v, amount)
            && emergency_withdraw_next(v, amount) == v,
{
}

// ---------------------------------------------------------------------
// The pause gate
// ---------------------------------------------------------------------

/// Pause gate: while the vault is paused, deposits, withdrawals,
/// strategy executions and borrow authorizations are all refused with
/// `VaultPaused` and leave the vault unchanged; emergency withdrawal is
/// deliberately not gated, and admin operations stay available to the
/// authority exactly as before.
pub proof fn lemma_pause_gate(
    v: Vault,
    amount: u64,
    now: i64,
    market_price: u64,
    requested: u64,
    caller: Identity,
)
    requires
        v.paused,
    ensures
        !deposit_allowed(v, amount),
        deposit_error(v, amount) == ErrorCode::VaultPaused,
        deposit_next(v, amount) == v,
        !withdraw_allowed(v, amount),
        withdraw_error(v, amount) == ErrorCode::VaultPaused,
        withdraw_next(v, amount) == v,
        !execute_allowed(v, now, market_price),
        execute_error(v, now, market_price) == ErrorCode::VaultPaused,
        execute_next(v, now, market_price) == v,
        !borrow_allowed(v, requested),
        borrow_error(v, requested) == ErrorCode::VaultPaused,
        emergency_withdraw_allowed(v, amount) <==> amount <= v.total_deposits,
        admin_allowed(v, caller) <==> caller == v.authority,
{
}

// ---------------------------------------------------------------------
// The strategy cooldown
// ---------------------------------------------------------------------

/// Cooldown: after a successful strategy execution at `t1`, a second
/// attempt at `t2` less than `COOLDOWN_SECONDS` later is refused as too
/// soon; once `COOLDOWN_SECONDS` have passed it is allowed again,
/// provided the vault is still unpaused and the counters have room.
pub proof fn lemma_cooldown(v: Vault, t1: i64, p1: u64, t2: i64, p2: u64)
    requires
        execute_allowed(v, t1, p1),
    ensures
        t2 - t1 < COOLDOWN_SECONDS ==> !execute_allowed(execute_next(v, t1, p1), t2, p2)
            && execute_error(execute_next(v, t1, p1), t2, p2)
            == ErrorCode::StrategyExecutionTooSoon,
        (t2 - t1 >= COOLDOWN_SECONDS && i64::MIN <= execute_next(v, t1, p1).total_profit
            + strategy_outcome(execute_next(v, t1, p1), p2) <= i64::MAX && execute_next(
            v,
            t1,
            p1,
        ).total_trades + 1 <= u64::MAX) ==> execute_allowed(execute_next(v, t1, p1), t2, p2),
{
}

/// The recorded execution time only moves forward, and only a
/// successful strategy execution changes it: every other operation
/// leaves it exactly where it was.
pub proof fn lemma_execution_time_monotone(
    v: Vault,
    u: User,
    now: i64,
    market_price: u64,
    amount: u64,
)
    requires
        v.wf(),
    ensures
        execute_next(v, now, market_price).last_strategy_execution >= v.last_strategy_execution,
        execute_next(v, now, market_price).wf(),
        deposit_next(v, amount).last_strategy_execution == v.last_strategy_execution,
        withdraw_next(v, amount).last_strategy_execution == v.last_strategy_execution,
        emergency_withdraw_next(v, amount).last_strategy_execution == v.last_strategy_execution,
        claim_next_vault(v, u, now).last_strategy_execution == v.last_strategy_execution,
{
}

// ---------------------------------------------------------------------
// Reward claims are idempotent at a fixed time
// ---------------------------------------------------------------------

/// Claim idempotence: a second claim at the same time accrues nothing —
/// it succeeds, leaves the pooled principal unchanged, and the reward
/// balance is zero after each of the two claims.
pub proof fn lemma_claim_idempotent(v: Vault, u: User, now: i64)
    requires
        claim_allowed(v, u, now),
    ensures
        claim_next_user(v, u, now).reward_balance == 0,
        claim_allowed(claim_next_vault(v, u, now), claim_next_user(v, u, now), now),
        claim_next_vault(
            claim_next_vault(v, u, now),
            claim_next_user(v, u, now),
            now,
        ).total_deposits == claim_next_vault(v, u, now).total_deposits,
        claim_next_user(
            claim_next_vault(v, u, now),
            claim_next_user(v, u, now),
            now,
        ).reward_balance == 0,
{
}

// ---------------------------------------------------------------------
// The leverage cap
// ---------------------------------------------------------------------

/// Leverage cap: while the vault is not paused, a borrow is authorized
/// exactly when the request is at most `MAX_LEVERAGE` times the pooled
/// principal.
pub proof fn lemma_leverage_cap(v: Vault, requested: u64)
    requires
        !v.paused,
    ensures
        borrow_allowed(v, requested) <==> requested <= v.total_deposits * MAX_LEVERAGE,
        !borrow_allowed(v, requested) ==> borrow_error(v, requested)
            == ErrorCode::ExcessiveLeverage,
{
}

} // verus!
