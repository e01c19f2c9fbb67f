//! A custodial vault ledger: pooled deposits, fee-deducted withdrawals,
//! a time-gated trading strategy, time-weighted reward compounding, and
//! authority-gated administration.
//!
//! The crate verifies the vault accounting state machine itself. Moving
//! the underlying assets between holding accounts, sourcing the clock and
//! delivering events are the host environment's work: callers perform the
//! external transfer for the amounts these functions report, and hand in
//! the current time as a plain value.

pub mod errors;
pub mod laws;
pub mod ops;
pub mod state;

pub use errors::ErrorCode;
pub use state::{DepositEvent, Identity, StrategyExecutedEvent, StrategyKind, User, Vault, WithdrawEvent};
pub use ops::{
    borrow, claim_rewards, deposit, emergency_withdraw, execute_strategy, initialize_vault,
    pause_vault, unpause_vault, update_reward_rate, update_strategy_threshold, withdraw,
};
