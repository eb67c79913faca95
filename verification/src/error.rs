use vstd::prelude::*;

verus! {

/// Error classification for every way a vault operation can be refused.
///
/// Business-rule violations (a line not drained, a disabled line, a limit hit)
/// are distinguished from structural ones (wrong vault type, unknown token
/// mint) so that a caller can decide whether retrying after corrective action
/// makes sense.
#[derive(Clone, Copy, Debug, PartialEq, Eq, Structural)]
pub enum ErrorCode {
    /// Default error code.
    Default,
    /// The given vault does not support this operation.
    InvalidVaultType,
    /// The given token mint is not supported.
    InvalidTokenMint,
    /// The given token has existing deposits.
    TokenWithDeposits,
    /// The given token has outstanding LP token supply.
    TokenWithLpSupply,
    /// Deposits for the given token are currently disabled.
    DepositsDisabled,
    /// The deposit would push cumulative deposits past the line's limit.
    DepositLimitExceeded,
    /// A token line for the given mint is already open.
    DuplicateTokenMint,
    /// The vault has no spare token-line capacity left.
    NoRemainingCapacity,
    /// The given amount must be strictly positive.
    InvalidAmount,
    /// The redemption asks for more LP tokens than are outstanding.
    InsufficientLpSupply,
    /// The line's ledger is in a state the ratio engine refuses to price
    /// (outstanding LP supply against zero recorded deposits).
    InvalidLedgerState,
    /// A ledger update would overflow the 64-bit ledger fields.
    ArithmeticOverflow,
}

impl ErrorCode {
    /// A human-readable description of the error.
    pub fn message(&self) -> &'static str {
        match self {
            ErrorCode::Default => "Default error code.",
            ErrorCode::InvalidVaultType => "The given vault does not support this operation.",
            ErrorCode::InvalidTokenMint => "The given token mint is not supported.",
            ErrorCode::TokenWithDeposits => "The given token has existing deposits.",
            ErrorCode::TokenWithLpSupply => "The given token has outstanding LP token supply.",
            ErrorCode::DepositsDisabled => "Deposits for the given token are disabled.",
            ErrorCode::DepositLimitExceeded => "The deposit would exceed the deposit limit.",
            ErrorCode::DuplicateTokenMint => "A token line for the given mint already exists.",
            ErrorCode::NoRemainingCapacity => "The vault has no token line capacity remaining.",
            ErrorCode::InvalidAmount => "The given amount must be strictly positive.",
            ErrorCode::InsufficientLpSupply => "The redemption exceeds the outstanding LP supply.",
            ErrorCode::InvalidLedgerState => "The token line holds LP supply but no deposits.",
            ErrorCode::ArithmeticOverflow => "A ledger update would overflow.",
        }
    }
}

} // verus!
