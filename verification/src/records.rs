//! The persisted records: the configuration singleton, the per-session
//! ledger, and the host's view of a token holding account.

use vstd::prelude::*;
use crate::ids::{AccountId, SessionHash};

verus! {

/// The global configuration singleton.
///
/// It lives at the address derived from the fixed configuration seed; the
/// host locates it there and hands it to every operation. `authority` may
/// update policy and withdraw from the vault; `vault` is the custody account
/// owned by the configuration's own derived address, which is what lets the
/// billing logic spend from it without a private key.
#[derive(Clone, Copy, Debug, PartialEq, Eq)]
pub struct PremiumConfig {
    /// Identity permitted to update policy and withdraw pooled funds.
    pub authority: AccountId,
    /// Identity of the token mint this configuration accepts.
    pub mint: AccountId,
    /// Address of the custody token account holding pooled funds.
    pub vault: AccountId,
    /// Default size of a free grant; positive after initialization.
    pub free_grant_amount: u64,
    /// Conversion rate from spent tokens to points; positive after initialization.
    pub points_per_token: u64,
    /// When set, grant and charge operations are refused.
    pub paused: bool,
    /// Derivation proof byte for the configuration's address.
    pub bump: u8,
}

impl PremiumConfig {
    /// The configuration invariant: both policy parameters are positive.
    /// Established by `initialize_config` and preserved by `update_config`.
    pub open spec fn wf(self) -> bool {
        self.free_grant_amount > 0 && self.points_per_token > 0
    }
}

/// The per-session accounting record, one per unique
/// (configuration, user, session hash) triple.
///
/// The identity fields are fixed at creation; the counters only ever grow,
/// by checked addition; `free_grant_claimed` is set exactly once.
#[derive(Clone, Copy, Debug, PartialEq, Eq)]
pub struct SessionLedger {
    /// Address of the configuration this ledger belongs to.
    pub config: AccountId,
    /// Identity of the user being billed.
    pub user: AccountId,
    /// Opaque hash identifying the billable session.
    pub session_hash: SessionHash,
    /// Sum of all free-grant amounts committed for this session.
    pub total_granted: u64,
    /// Sum of all charged token amounts committed for this session.
    pub total_spent: u64,
    /// Sum of all points committed by charges for this session.
    pub points_charged: u64,
    /// Timestamp of first-touch creation.
    pub created_at: i64,
    /// Timestamp of the latest successful mutation.
    pub last_updated_at: i64,
    /// Whether the one-time free grant has been claimed.
    pub free_grant_claimed: bool,
    /// Derivation proof byte for the ledger's address.
    pub bump: u8,
}

impl SessionLedger {
    /// Whether this record's fixed identity fields equal the supplied triple.
    pub open spec fn matches_identity(
        self,
        config: AccountId,
        user: AccountId,
        session_hash: SessionHash,
    ) -> bool {
        self.config == config && self.user == user && self.session_hash == session_hash
    }

    /// The record as first-touch creation writes it: identity fields set,
    /// counters zeroed, grant unclaimed, both timestamps at `now`.
    pub open spec fn fresh_spec(
        config: AccountId,
        user: AccountId,
        session_hash: SessionHash,
        bump: u8,
        now: i64,
    ) -> SessionLedger {
        SessionLedger {
            config,
            user,
            session_hash,
            total_granted: 0,
            total_spent: 0,
            points_charged: 0,
            created_at: now,
            last_updated_at: now,
            free_grant_claimed: false,
            bump,
        }
    }

    /// Builds the first-touch record described by [`Self::fresh_spec`].
    pub fn fresh_record(
        config: AccountId,
        user: AccountId,
        session_hash: SessionHash,
        bump: u8,
        now: i64,
    ) -> (l: SessionLedger)
        ensures
            l == Self::fresh_spec(config, user, session_hash, bump, now),
    {
        SessionLedger {
            config,
            user,
            session_hash,
            total_granted: 0,
            total_spent: 0,
            points_charged: 0,
            created_at: now,
            last_updated_at: now,
            free_grant_claimed: false,
            bump,
        }
    }

    /// The record after a committed free grant of `amount` at time `now`:
    /// the grant is marked claimed, `total_granted` grows by exactly
    /// `amount`, and nothing else changes but the update timestamp.
    /// Meaningful when the addition stays in range.
    pub open spec fn granted(self, amount: u64, now: i64) -> SessionLedger {
        SessionLedger {
            total_granted: (self.total_granted + amount) as u64,
            last_updated_at: now,
            free_grant_claimed: true,
            ..self
        }
    }

    /// The record after a committed charge of `token_amount` tokens and
    /// `points` points at time `now`: both counters grow by exactly the
    /// committed arguments, and nothing else changes but the update
    /// timestamp. Meaningful when both additions stay in range.
    pub open spec fn charged(self, token_amount: u64, points: u64, now: i64) -> SessionLedger {
        SessionLedger {
            total_spent: (self.total_spent + token_amount) as u64,
            points_charged: (self.points_charged + points) as u64,
            last_updated_at: now,
            ..self
        }
    }
}

/// The host's view of a token holding account: its address, the identity
/// that may spend from it, and the mint of the tokens it holds.
///
/// Balances stay with the host's value-transfer collaborator; the billing
/// logic only checks ownership and mint before ordering a transfer.
#[derive(Clone, Copy, Debug, PartialEq, Eq)]
pub struct TokenAccountInfo {
    /// Address of the token account.
    pub key: AccountId,
    /// Identity with spending authority over the account.
    pub owner: AccountId,
    /// Mint of the tokens the account holds.
    pub mint: AccountId,
}

} // verus!
