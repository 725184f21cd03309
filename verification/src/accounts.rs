//! Per-operation account bundles: the identities and token-account views
//! the host has already authenticated (signature checks, address
//! derivation) before the billing logic runs, together with the boundary
//! checks the logic still enforces structurally.
//!
//! Authority over the vault is proven structurally, not by a key: the vault
//! must be owned by the configuration's own derived address
//! (`config_key`), so only a transfer ordered by this logic — which the
//! host signs with the recomputed derivation — can spend from it.

use vstd::prelude::*;
use crate::errors::PremiumError;
use crate::ids::AccountId;
use crate::records::{PremiumConfig, TokenAccountInfo};

verus! {

/// Accounts for [`crate::ops::initialize_config`]: the prospective
/// authority (the signer), the accepted mint, the address and derivation
/// proof of the configuration record being created, and the freshly created
/// vault owned by that address.
#[derive(Clone, Copy, Debug, PartialEq, Eq)]
pub struct InitializeConfig {
    /// The signer who becomes the stored authority.
    pub authority: AccountId,
    /// The token mint this configuration will accept.
    pub mint: AccountId,
    /// The derived address at which the configuration record is created.
    pub config_key: AccountId,
    /// Derivation proof byte for `config_key`.
    pub config_bump: u8,
    /// The custody token account created for the configuration.
    pub vault: TokenAccountInfo,
}

/// Accounts for [`crate::ops::update_config`]: the signer claiming to be
/// the stored authority.
#[derive(Clone, Copy, Debug, PartialEq, Eq)]
pub struct UpdateConfig {
    /// The signer requesting the policy change.
    pub authority: AccountId,
}

/// Accounts for [`crate::ops::grant_free_session`].
#[derive(Clone, Copy, Debug, PartialEq, Eq)]
pub struct GrantFreeSession {
    /// The signer requesting the grant; must be the stored authority.
    pub authority: AccountId,
    /// The derived address of the configuration record.
    pub config_key: AccountId,
    /// The user receiving the grant.
    pub user: AccountId,
    /// The custody vault the grant is paid from.
    pub vault: TokenAccountInfo,
    /// The user's token account the grant is paid to.
    pub user_token_account: TokenAccountInfo,
    /// Derivation proof byte for the ledger record's address.
    pub ledger_bump: u8,
}

/// Accounts for [`crate::ops::charge_premium`].
#[derive(Clone, Copy, Debug, PartialEq, Eq)]
pub struct ChargePremium {
    /// The signer being charged; spends from their own token account.
    pub user: AccountId,
    /// The derived address of the configuration record.
    pub config_key: AccountId,
    /// The custody vault the charge is paid into.
    pub vault: TokenAccountInfo,
    /// The user's token account the charge is paid from.
    pub user_token_account: TokenAccountInfo,
    /// Derivation proof byte for the ledger record's address.
    pub ledger_bump: u8,
}

/// Accounts for [`crate::ops::withdraw_from_vault`].
#[derive(Clone, Copy, Debug, PartialEq, Eq)]
pub struct WithdrawFromVault {
    /// The signer requesting the withdrawal; must be the stored authority.
    pub authority: AccountId,
    /// The derived address of the configuration record.
    pub config_key: AccountId,
    /// The custody vault the withdrawal is paid from.
    pub vault: TokenAccountInfo,
    /// The destination token account; must hold the configured mint.
    pub destination_token_account: TokenAccountInfo,
}

/// The boundary check on a vault/user-token-account pair, shared by grants
/// and charges: the vault must be owned by the configuration's derived
/// address and hold the configured mint, and the user's token account must
/// be owned by the designated user and hold the configured mint — in that
/// order, first failure wins.
pub open spec fn token_accounts_error(
    cfg: PremiumConfig,
    config_key: AccountId,
    user: AccountId,
    vault: TokenAccountInfo,
    user_token_account: TokenAccountInfo,
) -> Option<PremiumError> {
    if vault.owner != config_key {
        Some(PremiumError::VaultAuthorityMismatch)
    } else if vault.mint != cfg.mint {
        Some(PremiumError::InvalidMint)
    } else if user_token_account.owner != user {
        Some(PremiumError::InvalidUserTokenAccount)
    } else if user_token_account.mint != cfg.mint {
        Some(PremiumError::InvalidMint)
    } else {
        None
    }
}

/// The boundary check for a grant: the signer must be the stored
/// authority, then the token accounts are checked as in
/// [`token_accounts_error`].
pub open spec fn grant_accounts_error(cfg: PremiumConfig, a: GrantFreeSession) -> Option<
    PremiumError,
> {
    if a.authority != cfg.authority {
        Some(PremiumError::Unauthorized)
    } else {
        token_accounts_error(cfg, a.config_key, a.user, a.vault, a.user_token_account)
    }
}

/// The boundary check for a charge: the user signs for themselves, so only
/// the token accounts are checked.
pub open spec fn charge_accounts_error(cfg: PremiumConfig, a: ChargePremium) -> Option<
    PremiumError,
> {
    token_accounts_error(cfg, a.config_key, a.user, a.vault, a.user_token_account)
}

/// The boundary check for a withdrawal: the signer must be the stored
/// authority, the vault must be owned by the configuration's derived
/// address and hold the configured mint, and the destination must hold the
/// configured mint.
pub open spec fn withdraw_accounts_error(cfg: PremiumConfig, a: WithdrawFromVault) -> Option<
    PremiumError,
> {
    if a.authority != cfg.authority {
        Some(PremiumError::Unauthorized)
    } else if a.vault.owner != a.config_key {
        Some(PremiumError::VaultAuthorityMismatch)
    } else if a.vault.mint != cfg.mint {
        Some(PremiumError::InvalidMint)
    } else if a.destination_token_account.mint != cfg.mint {
        Some(PremiumError::InvalidMint)
    } else {
        None
    }
}

/// Runs the boundary check of [`token_accounts_error`] in executable code.
pub fn check_token_accounts(
    cfg: &PremiumConfig,
    config_key: &AccountId,
    user: &AccountId,
    vault: &TokenAccountInfo,
    user_token_account: &TokenAccountInfo,
) -> (r: Result<(), PremiumError>)
    ensures
        r == match token_accounts_error(*cfg, *config_key, *user, *vault, *user_token_account) {
            Some(e) => Err::<(), PremiumError>(e),
            None => Ok::<(), PremiumError>(()),
        },
{
    if !crate::ids::id_eq(&vault.owner, config_key) {
        Err(PremiumError::VaultAuthorityMismatch)
    } else if !crate::ids::id_eq(&vault.mint, &cfg.mint) {
        Err(PremiumError::InvalidMint)
    } else if !crate::ids::id_eq(&user_token_account.owner, user) {
        Err(PremiumError::InvalidUserTokenAccount)
    } else if !crate::ids::id_eq(&user_token_account.mint, &cfg.mint) {
        Err(PremiumError::InvalidMint)
    } else {
        Ok(())
    }
}

} // verus!
