//! The reasons an operation reverts.

use vstd::prelude::*;

verus! {

/// Why an operation reverted. Each reason has a distinct, stable code.
#[derive(Clone, Copy, Debug, PartialEq, Eq, Structural)]
pub enum Error {
    /// The caller, or an address the operation names, lacks a required role
    /// or is blacklisted.
    InsufficientRights,
    /// The caller has no minter bound to it.
    MissingController,
    /// No blacklister is recorded.
    MissingBlacklister,
    /// The balance does not cover the amount.
    InsufficientBalance,
    /// The spender allowance does not cover the amount.
    InsufficientAllowance,
    /// The minter allowance does not cover the amount.
    InsufficientMinterAllowance,
    /// A sum exceeds `2^256 - 1`.
    ArithmeticOverflow,
    /// A difference would be negative.
    ArithmeticUnderflow,
    /// The operation targets the caller itself.
    CannotTargetSelfUser,
    /// Tokens may only be burnt by their owner.
    InvalidBurnTarget,
    /// The amount is not allowed here (zero).
    InvalidAmount,
    /// Mint and burn are disabled by the modality.
    MintBurnDisabled,
    /// The contract is paused.
    ContractIsPaused,
}

impl Error {
    /// The stable numeric code of the error.
    pub open spec fn spec_code(self) -> u16 {
        match self {
            Error::InsufficientRights => 60001,
            Error::MissingController => 60002,
            Error::MissingBlacklister => 60003,
            Error::InsufficientBalance => 60004,
            Error::InsufficientAllowance => 60005,
            Error::InsufficientMinterAllowance => 60006,
            Error::ArithmeticOverflow => 60007,
            Error::ArithmeticUnderflow => 60008,
            Error::CannotTargetSelfUser => 60009,
            Error::InvalidBurnTarget => 60010,
            Error::InvalidAmount => 60011,
            Error::MintBurnDisabled => 60012,
            Error::ContractIsPaused => 60013,
        }
    }

    /// The stable numeric code of the error.
    pub fn code(&self) -> (r: u16)
        ensures
            r == self.spec_code(),
    {
        match self {
            Error::InsufficientRights => 60001,
            Error::MissingController => 60002,
            Error::MissingBlacklister => 60003,
            Error::InsufficientBalance => 60004,
            Error::InsufficientAllowance => 60005,
            Error::InsufficientMinterAllowance => 60006,
            Error::ArithmeticOverflow => 60007,
            Error::ArithmeticUnderflow => 60008,
            Error::CannotTargetSelfUser => 60009,
            Error::InvalidBurnTarget => 60010,
            Error::InvalidAmount => 60011,
            Error::MintBurnDisabled => 60012,
            Error::ContractIsPaused => 60013,
        }
    }
}

} // verus!
