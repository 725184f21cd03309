//! The error taxonomy: every way a billing transition can be refused.
//!
//! Each variant aborts the enclosing operation with no partial effect; the
//! host discards the whole unit of work when one is returned.

use vstd::prelude::*;

verus! {

/// A named failure condition of a billing transition.
#[derive(Clone, Copy, Debug, PartialEq, Eq)]
pub enum PremiumError {
    /// The caller is not the stored authority of the configuration.
    Unauthorized,
    /// The configuration's pause flag is set; grants and charges are refused.
    BillingPaused,
    /// A supplied amount is invalid (zero where a positive value is required).
    InvalidAmount,
    /// The points conversion rate must be greater than zero.
    InvalidPointsRate,
    /// A checked addition or multiplication would exceed the counter's range.
    MathOverflow,
    /// An existing ledger record's identity fields do not match the supplied
    /// (configuration, user, session hash) triple.
    LedgerMismatch,
    /// The one-time free grant was already claimed for this session identity.
    FreeGrantAlreadyClaimed,
    /// The vault record is not owned by the configuration's derived address.
    VaultAuthorityMismatch,
    /// A token account's mint does not match the configured mint.
    InvalidMint,
    /// The user's token account is not owned by the designated user.
    InvalidUserTokenAccount,
}

impl PremiumError {
    /// A short human-readable description of the error.
    pub fn describe(&self) -> (r: &'static str)
    {
        match self {
            PremiumError::Unauthorized => "caller is not authorized for this action",
            PremiumError::BillingPaused => "billing is paused",
            PremiumError::InvalidAmount => "provided amount is invalid",
            PremiumError::InvalidPointsRate => "points rate must be greater than zero",
            PremiumError::MathOverflow => "math overflow",
            PremiumError::LedgerMismatch => "session ledger does not match the supplied identity",
            PremiumError::FreeGrantAlreadyClaimed => "free grant already claimed for this session",
            PremiumError::VaultAuthorityMismatch => "vault authority does not match the configuration",
            PremiumError::InvalidMint => "invalid token mint for this operation",
            PremiumError::InvalidUserTokenAccount => "invalid user token account for this operation",
        }
    }
}

} // verus!
