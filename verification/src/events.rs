//! Event records: immutable, timestamped notifications describing each
//! successful transition. Each operation returns the event it would emit;
//! the host appends it to its log for off-chain observers. Events are never
//! read back by the billing logic itself.

use vstd::prelude::*;
use crate::ids::{AccountId, SessionHash};

verus! {

/// Emitted once, when the configuration singleton is created.
#[derive(Clone, Copy, Debug, PartialEq, Eq)]
pub struct ConfigInitialized {
    pub authority: AccountId,
    pub mint: AccountId,
    pub vault: AccountId,
    pub free_grant_amount: u64,
    pub points_per_token: u64,
    pub at: i64,
}

/// Emitted when the stored authority overwrites the mutable policy fields.
#[derive(Clone, Copy, Debug, PartialEq, Eq)]
pub struct ConfigUpdated {
    pub authority: AccountId,
    pub free_grant_amount: u64,
    pub points_per_token: u64,
    pub paused: bool,
    pub at: i64,
}

/// Emitted when a one-time free grant is committed for a session.
#[derive(Clone, Copy, Debug, PartialEq, Eq)]
pub struct FreeSessionGranted {
    pub user: AccountId,
    pub session_hash: SessionHash,
    pub amount: u64,
    pub points_equivalent: u64,
    pub at: i64,
}

/// Emitted when a premium charge is committed for a session.
#[derive(Clone, Copy, Debug, PartialEq, Eq)]
pub struct PremiumCharged {
    pub user: AccountId,
    pub session_hash: SessionHash,
    pub token_amount: u64,
    pub points_equivalent: u64,
    pub at: i64,
}

/// Emitted when the stored authority withdraws pooled funds from the vault.
#[derive(Clone, Copy, Debug, PartialEq, Eq)]
pub struct VaultWithdrawn {
    pub authority: AccountId,
    pub destination: AccountId,
    pub amount: u64,
    pub at: i64,
}

} // verus!
