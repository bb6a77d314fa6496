use vstd::prelude::*;

verus! {

/// Every way an operation can fail. A failed operation changes nothing.
#[derive(Clone, Copy, Debug, PartialEq, Eq, Structural)]
pub enum ShadeError {
    InvalidAmount,
    PurposeTooLong,
    InvalidExpiry,
    AuthorizationInactive,
    AuthorizationExpired,
    ExceedsSpendingCap,
    Overflow,
    Unauthorized,
    FeeTooHigh,
    InsufficientStake,
    NoRewardsToClaim,
    NoStakers,
    NotStaking,
    ExceedsTierLimit,
    /// An account handed to an operation is not the one its records name
    /// (a vault, or the pool an authorization draws from).
    InvalidAccount,
}

impl ShadeError {
    /// The human-readable message for this error.
    pub fn message(&self) -> (r: &'static str) {
        match self {
            ShadeError::InvalidAmount => "Invalid amount specified",
            ShadeError::PurposeTooLong => "Purpose string too long (max 64 characters)",
            ShadeError::InvalidExpiry => "Invalid expiry timestamp",
            ShadeError::AuthorizationInactive => "Authorization is not active",
            ShadeError::AuthorizationExpired => "Authorization has expired",
            ShadeError::ExceedsSpendingCap => "Amount exceeds spending cap",
            ShadeError::Overflow => "Arithmetic overflow",
            ShadeError::Unauthorized => "Unauthorized action",
            ShadeError::FeeTooHigh => "Fee too high (max 10%)",
            ShadeError::InsufficientStake => "Insufficient staked amount",
            ShadeError::NoRewardsToClaim => "No rewards to claim",
            ShadeError::NoStakers => "No stakers in the protocol",
            ShadeError::NotStaking => "User is not staking",
            ShadeError::ExceedsTierLimit => "Spending cap exceeds tier limit",
            ShadeError::InvalidAccount => "Account does not match its record",
        }
    }
}

} // verus!
