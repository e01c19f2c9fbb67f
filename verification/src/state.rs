//! Ledger entities and the fixed parameters of the vault's rules.

use vstd::prelude::*;

verus! {

/// Fee taken on an ordinary withdrawal, in percent of the requested amount.
pub const FEE_PERCENTAGE: u64 = 5;

/// Minimum number of seconds between two successful strategy executions.
pub const COOLDOWN_SECONDS: i64 = 3600;

/// A borrow may be authorized up to this multiple of the pooled deposits.
pub const MAX_LEVERAGE: u64 = 3;

/// Simulated outcome of the covered-call branch of the strategy.
pub const COVERED_CALL_PAYOUT: i64 = 1000;

/// Simulated outcome of the cash-secured-put branch of the strategy.
pub const CASH_SECURED_PUT_PAYOUT: i64 = -500;

/// Staking for at least this many seconds doubles the reward accrual.
pub const BOOST_DURATION_SECONDS: i64 = 30 * 86400;

/// Reward multiplier applied once the boost duration is reached.
pub const BOOST_MULTIPLIER: u64 = 2;

/// Reward rate a freshly initialized vault starts with.
pub const INITIAL_REWARD_RATE: u64 = 10;

/// A principal of the host environment; only its identity is read here,
/// so it is carried as a plain number.
#[derive(Clone, Copy, PartialEq, Eq, Debug)]
pub struct Identity {
    pub id: u64,
}

/// The pooled-custody record: aggregate deposits together with the
/// strategy, reward and administration parameters.
#[derive(Clone, Copy, PartialEq, Eq, Debug)]
pub struct Vault {
    /// Host-supplied seed for the vault's address; stored, never read here.
    pub bump: u8,
    /// Sum of all currently pooled principal.
    pub total_deposits: u64,
    /// Reward units accrued per unit time per unit duration.
    pub reward_rate: u64,
    /// Market-price boundary selecting the strategy branch.
    pub price_threshold: u64,
    /// The sole principal permitted to perform admin operations.
    pub authority: Identity,
    /// While true, deposits, withdrawals, strategy execution and borrow
    /// authorization are refused.
    pub paused: bool,
    /// Cumulative signed profit and loss from strategy execution.
    pub total_profit: i64,
    /// Number of successful strategy executions.
    pub total_trades: u64,
    /// Time of the most recent strategy run; zero means never executed.
    pub last_strategy_execution: i64,
}

impl Vault {
    /// A vault starts with `last_strategy_execution == 0` and every
    /// successful execution writes a later, non-negative time into it.
    pub open spec fn wf(self) -> bool {
        self.last_strategy_execution >= 0
    }
}

/// Per-depositor staking state.
#[derive(Clone, Copy, PartialEq, Eq, Debug)]
pub struct User {
    /// Accrued, not-yet-compounded reward units.
    pub reward_balance: u64,
    /// Last time rewards were computed for this user.
    pub last_staked_timestamp: i64,
}

impl User {
    /// A position starts with `last_staked_timestamp == 0` and every
    /// successful claim writes a later, non-negative time into it.
    pub open spec fn wf(self) -> bool {
        self.last_staked_timestamp >= 0
    }
}

/// Which branch a strategy execution took.
#[derive(Clone, Copy, PartialEq, Eq, Debug)]
pub enum StrategyKind {
    CoveredCall,
    CashSecuredPut,
}

/// Reported after a successful deposit.
#[derive(Clone, Copy, PartialEq, Eq, Debug)]
pub struct DepositEvent {
    pub user: Identity,
    pub amount: u64,
}

/// Reported after a successful withdrawal; `amount` is the net amount
/// sent to the user, `fee` the part sent to the fee collector.
#[derive(Clone, Copy, PartialEq, Eq, Debug)]
pub struct WithdrawEvent {
    pub user: Identity,
    pub amount: u64,
    pub fee: u64,
}

/// Reported after a successful strategy execution.
#[derive(Clone, Copy, PartialEq, Eq, Debug)]
pub struct StrategyExecutedEvent {
    pub strategy: StrategyKind,
    pub market_price: u64,
    pub profit_or_loss: i64,
    pub total_trades: u64,
}

} // verus!
