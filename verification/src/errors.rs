//! The error taxonomy of the vault ledger.

use vstd::prelude::*;

verus! {

/// Why an operation was refused. Every refusal is terminal for the call:
/// no state is changed when one of these is returned.
#[derive(Clone, Copy, PartialEq, Eq, Debug)]
pub enum ErrorCode {
    /// A withdrawal asked for more than the pooled balance.
    InsufficientFunds,
    /// An admin operation was attempted by a caller other than the
    /// stored authority.
    Unauthorized,
    /// A gated operation was attempted while the vault is paused.
    VaultPaused,
    /// A borrow request exceeded the leverage cap.
    ExcessiveLeverage,
    /// Strategy execution was attempted before the cooldown elapsed.
    StrategyExecutionTooSoon,
    /// A checked addition or multiplication on a counter overflowed.
    ArithmeticOverflow,
    /// The supplied time lies before the last recorded time.
    ClockRegression,
    /// The external asset move was rejected; produced by the host layer
    /// that performs transfers, never by the ledger itself.
    TransferFailed,
}

impl ErrorCode {
    /// A short description of the refusal, for surfacing to callers.
    pub fn message(&self) -> (r: &'static str)
        ensures
            *self == ErrorCode::InsufficientFunds ==> r@ == "insufficient funds in the vault"@,
            *self == ErrorCode::Unauthorized ==> r@ == "unauthorized action"@,
            *self == ErrorCode::VaultPaused ==> r@ == "the vault is paused"@,
            *self == ErrorCode::ExcessiveLeverage ==> r@ == "the requested leverage exceeds the maximum allowed"@,
            *self == ErrorCode::StrategyExecutionTooSoon ==> r@ == "strategy execution too soon"@,
            *self == ErrorCode::ArithmeticOverflow ==> r@ == "arithmetic overflow on a counter"@,
            *self == ErrorCode::ClockRegression ==> r@ == "the clock moved backwards"@,
            *self == ErrorCode::TransferFailed ==> r@ == "the external asset transfer was rejected"@,
    {
        match self {
            ErrorCode::InsufficientFunds => "insufficient funds in the vault",
            ErrorCode::Unauthorized => "unauthorized action",
            ErrorCode::VaultPaused => "the vault is paused",
            ErrorCode::ExcessiveLeverage => "the requested leverage exceeds the maximum allowed",
            ErrorCode::StrategyExecutionTooSoon => "strategy execution too soon",
            ErrorCode::ArithmeticOverflow => "arithmetic overflow on a counter",
            ErrorCode::ClockRegression => "the clock moved backwards",
            ErrorCode::TransferFailed => "the external asset transfer was rejected",
        }
    }
}

} // verus!
