//! The five billing transitions and the shared first-touch helper.
//!
//! Each operation is a pure state transition: it validates the boundary
//! (authorization, ownership, mint), the policy (pause flag, amounts), the
//! ledger identity and the checked arithmetic, in the same order the
//! deployed rules apply them, and only then commits. On success it returns
//! the [`TransferOrder`] the host must perform and the event to log; on any
//! error it returns the first failing check's error and changes nothing, so
//! the host's atomic commit/discard sees no partial state.
//!
//! For every operation a spec function (`*_error`, and the success shapes
//! `*_transfer` / `*_event`) states the whole decision; the executable
//! function's contract is equality with those functions.

use vstd::prelude::*;
use crate::accounts::{
    ChargePremium, GrantFreeSession, InitializeConfig, UpdateConfig, WithdrawFromVault,
    charge_accounts_error, check_token_accounts, grant_accounts_error, withdraw_accounts_error,
};
use crate::errors::PremiumError;
use crate::events::{
    ConfigInitialized, ConfigUpdated, FreeSessionGranted, PremiumCharged, VaultWithdrawn,
};
use crate::ids::{AccountId, SessionHash, id_eq};
use crate::records::{PremiumConfig, SessionLedger};

verus! {

/// Who authorizes a transfer: the configuration's derived address (the
/// host recomputes the derivation and signs structurally, no private key
/// exists) or the user's own signature.
#[derive(Clone, Copy, Debug, PartialEq, Eq)]
pub enum TransferAuthority {
    /// Outbound from the vault, signed by recomputing the configuration's
    /// derivation inside the host.
    Derived { config: AccountId },
    /// Inbound from the user's own account, under the user's signature.
    Signer { user: AccountId },
}

/// A value transfer an operation asks the host to perform: move `amount`
/// tokens of the configured mint from `source` to `destination` under
/// `authority`. The host commits the transfer and the record mutations
/// together, or discards both.
#[derive(Clone, Copy, Debug, PartialEq, Eq)]
pub struct TransferOrder {
    pub source: AccountId,
    pub destination: AccountId,
    pub amount: u64,
    pub authority: TransferAuthority,
}

/// Validation of `initialize_config`: the free-grant size and the points
/// rate must both be positive, checked in that order.
pub open spec fn initialize_error(free_grant_amount: u64, points_per_token: u64) -> Option<
    PremiumError,
> {
    if free_grant_amount == 0 {
        Some(PremiumError::InvalidAmount)
    } else if points_per_token == 0 {
        Some(PremiumError::InvalidPointsRate)
    } else {
        None
    }
}

/// The configuration record `initialize_config` creates on success.
pub open spec fn initialized_config(
    a: InitializeConfig,
    free_grant_amount: u64,
    points_per_token: u64,
) -> PremiumConfig {
    PremiumConfig {
        authority: a.authority,
        mint: a.mint,
        vault: a.vault.key,
        free_grant_amount,
        points_per_token,
        paused: false,
        bump: a.config_bump,
    }
}

/// The event `initialize_config` emits on success.
pub open spec fn initialize_event(
    a: InitializeConfig,
    free_grant_amount: u64,
    points_per_token: u64,
    now: i64,
) -> ConfigInitialized {
    ConfigInitialized {
        authority: a.authority,
        mint: a.mint,
        vault: a.vault.key,
        free_grant_amount,
        points_per_token,
        at: now,
    }
}

/// Creates the configuration singleton.
///
/// The host guarantees, by construction of the accounts, that the record
/// does not exist yet and that the vault was created for the configuration:
/// owned by the configuration's derived address and holding the accepted
/// mint; those guarantees are the preconditions. Validation rejects a zero
/// free-grant size or points rate, so a configuration violating
/// [`PremiumConfig::wf`] is never observable.
pub fn initialize_config(
    a: InitializeConfig,
    free_grant_amount: u64,
    points_per_token: u64,
    now: i64,
) -> (r: Result<(PremiumConfig, ConfigInitialized), PremiumError>)
    requires
        a.vault.owner == a.config_key,
        a.vault.mint == a.mint,
    ensures
        match r {
            Ok(p) => initialize_error(free_grant_amount, points_per_token) is None && p.0
                == initialized_config(a, free_grant_amount, points_per_token) && p.0.wf()
                && !p.0.paused && p.1 == initialize_event(
                a,
                free_grant_amount,
                points_per_token,
                now,
            ),
            Err(e) => initialize_error(free_grant_amount, points_per_token) == Some(e),
        },
{
    if free_grant_amount == 0 {
        return Err(PremiumError::InvalidAmount);
    }
    if points_per_token == 0 {
        return Err(PremiumError::InvalidPointsRate);
    }
    let cfg = PremiumConfig {
        authority: a.authority,
        mint: a.mint,
        vault: a.vault.key,
        free_grant_amount,
        points_per_token,
        paused: false,
        bump: a.config_bump,
    };
    let ev = ConfigInitialized {
        authority: a.authority,
        mint: a.mint,
        vault: a.vault.key,
        free_grant_amount,
        points_per_token,
        at: now,
    };
    Ok((cfg, ev))
}

/// Validation of `update_config`: the caller must be the stored authority,
/// then the new policy values must be positive, in that order.
pub open spec fn update_error(
    cfg: PremiumConfig,
    a: UpdateConfig,
    free_grant_amount: u64,
    points_per_token: u64,
) -> Option<PremiumError> {
    if a.authority != cfg.authority {
        Some(PremiumError::Unauthorized)
    } else if free_grant_amount == 0 {
        Some(PremiumError::InvalidAmount)
    } else if points_per_token == 0 {
        Some(PremiumError::InvalidPointsRate)
    } else {
        None
    }
}

/// The configuration after a successful update: exactly the three mutable
/// policy fields are overwritten.
pub open spec fn updated_config(
    cfg: PremiumConfig,
    free_grant_amount: u64,
    points_per_token: u64,
    paused: bool,
) -> PremiumConfig {
    PremiumConfig { free_grant_amount, points_per_token, paused, ..cfg }
}

/// The event `update_config` emits on success.
pub open spec fn update_event(
    cfg: PremiumConfig,
    free_grant_amount: u64,
    points_per_token: u64,
    paused: bool,
    now: i64,
) -> ConfigUpdated {
    ConfigUpdated { authority: cfg.authority, free_grant_amount, points_per_token, paused, at: now }
}

/// Overwrites the mutable policy fields of the configuration.
///
/// Only the stored authority may call it; `authority`, `mint`, `vault` and
/// the derivation byte never change. The pause flag may be set or cleared
/// freely; validation keeps both policy parameters positive, so
/// [`PremiumConfig::wf`] is preserved.
pub fn update_config(
    cfg: &mut PremiumConfig,
    a: UpdateConfig,
    free_grant_amount: u64,
    points_per_token: u64,
    paused: bool,
    now: i64,
) -> (r: Result<ConfigUpdated, PremiumError>)
    ensures
        match r {
            Ok(ev) => update_error(*old(cfg), a, free_grant_amount, points_per_token) is None
                && *final(cfg) == updated_config(
                *old(cfg),
                free_grant_amount,
                points_per_token,
                paused,
            ) && final(cfg).wf() && ev == update_event(
                *old(cfg),
                free_grant_amount,
                points_per_token,
                paused,
                now,
            ),
            Err(e) => update_error(*old(cfg), a, free_grant_amount, points_per_token) == Some(e)
                && *final(cfg) == *old(cfg),
        },
        final(cfg).authority == old(cfg).authority,
        final(cfg).mint == old(cfg).mint,
        final(cfg).vault == old(cfg).vault,
        final(cfg).bump == old(cfg).bump,
{
    if !id_eq(&a.authority, &cfg.authority) {
        return Err(PremiumError::Unauthorized);
    }
    if free_grant_amount == 0 {
        return Err(PremiumError::InvalidAmount);
    }
    if points_per_token == 0 {
        return Err(PremiumError::InvalidPointsRate);
    }
    cfg.free_grant_amount = free_grant_amount;
    cfg.points_per_token = points_per_token;
    cfg.paused = paused;
    Ok(
        ConfigUpdated {
            authority: cfg.authority,
            free_grant_amount,
            points_per_token,
            paused,
            at: now,
        },
    )
}

/// An absent record is created fresh; a present one must match the triple.
pub open spec fn ledger_identity_ok(
    ledger: Option<SessionLedger>,
    config: AccountId,
    user: AccountId,
    session_hash: SessionHash,
) -> bool {
    match ledger {
        Some(l) => l.matches_identity(config, user, session_hash),
        None => true,
    }
}

/// The record an operation works on: the existing one, or the first-touch
/// record created at `now` when none exists yet.
pub open spec fn ledger_or_fresh(
    ledger: Option<SessionLedger>,
    config: AccountId,
    user: AccountId,
    session_hash: SessionHash,
    bump: u8,
    now: i64,
) -> SessionLedger {
    match ledger {
        Some(l) => l,
        None => SessionLedger::fresh_spec(config, user, session_hash, bump, now),
    }
}

/// The free-grant counter already committed for the session, zero when the
/// record does not exist yet.
pub open spec fn prior_granted(ledger: Option<SessionLedger>) -> int {
    match ledger {
        Some(l) => l.total_granted as int,
        None => 0,
    }
}

/// The spent counter already committed for the session.
pub open spec fn prior_spent(ledger: Option<SessionLedger>) -> int {
    match ledger {
        Some(l) => l.total_spent as int,
        None => 0,
    }
}

/// The points counter already committed for the session.
pub open spec fn prior_points(ledger: Option<SessionLedger>) -> int {
    match ledger {
        Some(l) => l.points_charged as int,
        None => 0,
    }
}

/// First-touch creation or identity validation of the session ledger.
///
/// When no record exists, one is created with zeroed counters and both
/// timestamps at `now`. When one exists, its fixed identity fields must
/// equal the supplied (configuration, user, session hash) triple exactly;
/// a mismatch is refused and never silently overwritten.
pub fn init_or_validate_ledger(
    ledger: &mut Option<SessionLedger>,
    config: AccountId,
    user: AccountId,
    session_hash: SessionHash,
    bump: u8,
    now: i64,
) -> (r: Result<(), PremiumError>)
    ensures
        match r {
            Ok(_) => ledger_identity_ok(*old(ledger), config, user, session_hash) && *final(ledger)
                == Some(ledger_or_fresh(*old(ledger), config, user, session_hash, bump, now)),
            Err(e) => e == PremiumError::LedgerMismatch && !ledger_identity_ok(
                *old(ledger),
                config,
                user,
                session_hash,
            ) && *final(ledger) == *old(ledger),
        },
{
    match ledger {
        None => {
            *ledger = Some(SessionLedger::fresh_record(config, user, session_hash, bump, now));
            Ok(())
        },
        Some(l) => {
            if id_eq(&l.config, &config) && id_eq(&l.user, &user) && crate::ids::session_hash_eq(
                &l.session_hash,
                &session_hash,
            ) {
                Ok(())
            } else {
                Err(PremiumError::LedgerMismatch)
            }
        },
    }
}

/// The amount a grant resolves to: the explicit argument, or the
/// configured default when the argument is zero.
pub open spec fn resolved_grant_amount(cfg: PremiumConfig, grant_amount: u64) -> u64 {
    if grant_amount == 0 {
        cfg.free_grant_amount
    } else {
        grant_amount
    }
}

/// The full decision of `grant_free_session`, first failing check wins:
/// boundary (authority, vault ownership, mints), pause flag, ledger
/// identity, the exactly-once guard, the resolved amount, then the two
/// checked operations (counter addition, points multiplication).
pub open spec fn grant_error(
    cfg: PremiumConfig,
    a: GrantFreeSession,
    ledger: Option<SessionLedger>,
    session_hash: SessionHash,
    grant_amount: u64,
) -> Option<PremiumError> {
    if grant_accounts_error(cfg, a) is Some {
        grant_accounts_error(cfg, a)
    } else if cfg.paused {
        Some(PremiumError::BillingPaused)
    } else if !ledger_identity_ok(ledger, a.config_key, a.user, session_hash) {
        Some(PremiumError::LedgerMismatch)
    } else if ledger is Some && ledger.unwrap().free_grant_claimed {
        Some(PremiumError::FreeGrantAlreadyClaimed)
    } else if resolved_grant_amount(cfg, grant_amount) == 0 {
        Some(PremiumError::InvalidAmount)
    } else if prior_granted(ledger) + resolved_grant_amount(cfg, grant_amount) > u64::MAX {
        Some(PremiumError::MathOverflow)
    } else if resolved_grant_amount(cfg, grant_amount) * cfg.points_per_token > u64::MAX {
        Some(PremiumError::MathOverflow)
    } else {
        None
    }
}

/// The transfer a successful grant orders: `amount` from the vault to the
/// user's token account, authorized by the configuration's derived address.
pub open spec fn grant_transfer(a: GrantFreeSession, amount: u64) -> TransferOrder {
    TransferOrder {
        source: a.vault.key,
        destination: a.user_token_account.key,
        amount,
        authority: TransferAuthority::Derived { config: a.config_key },
    }
}

/// The event a successful grant emits; the points equivalent is the
/// granted amount converted at the configured rate.
pub open spec fn grant_event(
    a: GrantFreeSession,
    session_hash: SessionHash,
    amount: u64,
    cfg: PremiumConfig,
    now: i64,
) -> FreeSessionGranted {
    FreeSessionGranted {
        user: a.user,
        session_hash,
        amount,
        points_equivalent: (amount * cfg.points_per_token) as u64,
        at: now,
    }
}

/// Grants the one-time free allotment for a session.
///
/// A zero `grant_amount` means "use the configured default". On success the
/// ledger (created first-touch if absent) marks the grant claimed and grows
/// `total_granted` by exactly the resolved amount, and the returned order
/// moves that amount from the vault to the user, authorized by the
/// configuration's derived address. Every error leaves the ledger exactly
/// as it was. The host hands in the vault record stored in the
/// configuration; that is the precondition.
pub fn grant_free_session(
    cfg: &PremiumConfig,
    a: GrantFreeSession,
    session_hash: SessionHash,
    grant_amount: u64,
    ledger: &mut Option<SessionLedger>,
    now: i64,
) -> (r: Result<(TransferOrder, FreeSessionGranted), PremiumError>)
    requires
        a.vault.key == cfg.vault,
    ensures
        match r {
            Ok(p) => ({
                let amount = resolved_grant_amount(*cfg, grant_amount);
                grant_error(*cfg, a, *old(ledger), session_hash, grant_amount) is None && p.0
                    == grant_transfer(a, amount) && p.1 == grant_event(
                    a,
                    session_hash,
                    amount,
                    *cfg,
                    now,
                ) && *final(ledger) == Some(
                    ledger_or_fresh(
                        *old(ledger),
                        a.config_key,
                        a.user,
                        session_hash,
                        a.ledger_bump,
                        now,
                    ).granted(amount, now),
                )
            }),
            Err(e) => grant_error(*cfg, a, *old(ledger), session_hash, grant_amount) == Some(e)
                && *final(ledger) == *old(ledger),
        },
{
    if !id_eq(&a.authority, &cfg.authority) {
        return Err(PremiumError::Unauthorized);
    }
    match check_token_accounts(cfg, &a.config_key, &a.user, &a.vault, &a.user_token_account) {
        Ok(_) => {},
        Err(e) => {
            return Err(e);
        },
    }
    if cfg.paused {
        return Err(PremiumError::BillingPaused);
    }
    let mut work: Option<SessionLedger> = *ledger;
    match init_or_validate_ledger(&mut work, a.config_key, a.user, session_hash, a.ledger_bump, now) {
        Ok(_) => {},
        Err(e) => {
            return Err(e);
        },
    }
    let base = work.unwrap();
    if base.free_grant_claimed {
        return Err(PremiumError::FreeGrantAlreadyClaimed);
    }
    let amount = if grant_amount == 0 {
        cfg.free_grant_amount
    } else {
        grant_amount
    };
    if amount == 0 {
        return Err(PremiumError::InvalidAmount);
    }
    let total_granted = match base.total_granted.checked_add(amount) {
        Some(t) => t,
        None => {
            return Err(PremiumError::MathOverflow);
        },
    };
    let points_equivalent = match amount.checked_mul(cfg.points_per_token) {
        Some(p) => p,
        None => {
            return Err(PremiumError::MathOverflow);
        },
    };
    let updated = SessionLedger {
        total_granted,
        last_updated_at: now,
        free_grant_claimed: true,
        ..base
    };
    *ledger = Some(updated);
    Ok(
        (
            TransferOrder {
                source: a.vault.key,
                destination: a.user_token_account.key,
                amount,
                authority: TransferAuthority::Derived { config: a.config_key },
            },
            FreeSessionGranted { user: a.user, session_hash, amount, points_equivalent, at: now },
        ),
    )
}

/// The full decision of `charge_premium`, first failing check wins:
/// boundary (vault ownership, mints), pause flag, the positive-amount
/// rule, ledger identity, then the two checked counter additions.
pub open spec fn charge_error(
    cfg: PremiumConfig,
    a: ChargePremium,
    ledger: Option<SessionLedger>,
    session_hash: SessionHash,
    token_amount: u64,
    points_equivalent: u64,
) -> Option<PremiumError> {
    if charge_accounts_error(cfg, a) is Some {
        charge_accounts_error(cfg, a)
    } else if cfg.paused {
        Some(PremiumError::BillingPaused)
    } else if token_amount == 0 {
        Some(PremiumError::InvalidAmount)
    } else if !ledger_identity_ok(ledger, a.config_key, a.user, session_hash) {
        Some(PremiumError::LedgerMismatch)
    } else if prior_spent(ledger) + token_amount > u64::MAX {
        Some(PremiumError::MathOverflow)
    } else if prior_points(ledger) + points_equivalent > u64::MAX {
        Some(PremiumError::MathOverflow)
    } else {
        None
    }
}

/// The transfer a successful charge orders: `token_amount` from the user's
/// token account into the vault, under the user's own signature.
pub open spec fn charge_transfer(a: ChargePremium, token_amount: u64) -> TransferOrder {
    TransferOrder {
        source: a.user_token_account.key,
        destination: a.vault.key,
        amount: token_amount,
        authority: TransferAuthority::Signer { user: a.user },
    }
}

/// The event a successful charge emits; the points equivalent is the
/// caller-supplied value, not recomputed from the configured rate.
pub open spec fn charge_event(
    a: ChargePremium,
    session_hash: SessionHash,
    token_amount: u64,
    points_equivalent: u64,
    now: i64,
) -> PremiumCharged {
    PremiumCharged { user: a.user, session_hash, token_amount, points_equivalent, at: now }
}

/// Charges a premium session against the user's token balance.
///
/// There is no once-only guard: repeated successful charges accumulate.
/// On success the ledger (created first-touch if absent) grows
/// `total_spent` by exactly `token_amount` and `points_charged` by exactly
/// the caller-supplied `points_equivalent`, and the returned order moves
/// the tokens from the user's account into the vault under the user's own
/// signature. Every error leaves the ledger exactly as it was. The host
/// hands in the vault record stored in the configuration; that is the
/// precondition.
pub fn charge_premium(
    cfg: &PremiumConfig,
    a: ChargePremium,
    session_hash: SessionHash,
    token_amount: u64,
    points_equivalent: u64,
    ledger: &mut Option<SessionLedger>,
    now: i64,
) -> (r: Result<(TransferOrder, PremiumCharged), PremiumError>)
    requires
        a.vault.key == cfg.vault,
    ensures
        match r {
            Ok(p) => charge_error(
                *cfg,
                a,
                *old(ledger),
                session_hash,
                token_amount,
                points_equivalent,
            ) is None && p.0 == charge_transfer(a, token_amount) && p.1 == charge_event(
                a,
                session_hash,
                token_amount,
                points_equivalent,
                now,
            ) && *final(ledger) == Some(
                ledger_or_fresh(
                    *old(ledger),
                    a.config_key,
                    a.user,
                    session_hash,
                    a.ledger_bump,
                    now,
                ).charged(token_amount, points_equivalent, now),
            ),
            Err(e) => charge_error(*cfg, a, *old(ledger), session_hash, token_amount, points_equivalent)
                == Some(e) && *final(ledger) == *old(ledger),
        },
{
    match check_token_accounts(cfg, &a.config_key, &a.user, &a.vault, &a.user_token_account) {
        Ok(_) => {},
        Err(e) => {
            return Err(e);
        },
    }
    if cfg.paused {
        return Err(PremiumError::BillingPaused);
    }
    if token_amount == 0 {
        return Err(PremiumError::InvalidAmount);
    }
    let mut work: Option<SessionLedger> = *ledger;
    match init_or_validate_ledger(&mut work, a.config_key, a.user, session_hash, a.ledger_bump, now) {
        Ok(_) => {},
        Err(e) => {
            return Err(e);
        },
    }
    let base = work.unwrap();
    let total_spent = match base.total_spent.checked_add(token_amount) {
        Some(t) => t,
        None => {
            return Err(PremiumError::MathOverflow);
        },
    };
    let points_charged = match base.points_charged.checked_add(points_equivalent) {
        Some(p) => p,
        None => {
            return Err(PremiumError::MathOverflow);
        },
    };
    let updated = SessionLedger { total_spent, points_charged, last_updated_at: now, ..base };
    *ledger = Some(updated);
    Ok(
        (
            TransferOrder {
                source: a.user_token_account.key,
                destination: a.vault.key,
                amount: token_amount,
                authority: TransferAuthority::Signer { user: a.user },
            },
            PremiumCharged { user: a.user, session_hash, token_amount, points_equivalent, at: now },
        ),
    )
}

/// The full decision of `withdraw_from_vault`: boundary (authority, vault
/// ownership, mints) then the positive-amount rule.
pub open spec fn withdraw_error(
    cfg: PremiumConfig,
    a: WithdrawFromVault,
    amount: u64,
) -> Option<PremiumError> {
    if withdraw_accounts_error(cfg, a) is Some {
        withdraw_accounts_error(cfg, a)
    } else if amount == 0 {
        Some(PremiumError::InvalidAmount)
    } else {
        None
    }
}

/// The transfer a successful withdrawal orders: `amount` from the vault to
/// the destination, authorized by the configuration's derived address.
pub open spec fn withdraw_transfer(a: WithdrawFromVault, amount: u64) -> TransferOrder {
    TransferOrder {
        source: a.vault.key,
        destination: a.destination_token_account.key,
        amount,
        authority: TransferAuthority::Derived { config: a.config_key },
    }
}

/// The event a successful withdrawal emits.
pub open spec fn withdraw_event(
    cfg: PremiumConfig,
    a: WithdrawFromVault,
    amount: u64,
    now: i64,
) -> VaultWithdrawn {
    VaultWithdrawn {
        authority: cfg.authority,
        destination: a.destination_token_account.key,
        amount,
        at: now,
    }
}

/// Withdraws pooled funds from the vault to an arbitrary destination
/// holding the configured mint.
///
/// A pure treasury operation: only the stored authority may call it, the
/// pause flag is deliberately not consulted, and no ledger record is
/// touched — the vault balance itself, enforced by the host's
/// value-transfer collaborator, is the source of truth for available
/// funds. The host hands in the vault record stored in the configuration;
/// that is the precondition.
pub fn withdraw_from_vault(
    cfg: &PremiumConfig,
    a: WithdrawFromVault,
    amount: u64,
    now: i64,
) -> (r: Result<(TransferOrder, VaultWithdrawn), PremiumError>)
    requires
        a.vault.key == cfg.vault,
    ensures
        match r {
            Ok(p) => withdraw_error(*cfg, a, amount) is None && p.0 == withdraw_transfer(a, amount)
                && p.1 == withdraw_event(*cfg, a, amount, now),
            Err(e) => withdraw_error(*cfg, a, amount) == Some(e),
        },
{
    if !id_eq(&a.authority, &cfg.authority) {
        return Err(PremiumError::Unauthorized);
    }
    if !id_eq(&a.vault.owner, &a.config_key) {
        return Err(PremiumError::VaultAuthorityMismatch);
    }
    if !id_eq(&a.vault.mint, &cfg.mint) {
        return Err(PremiumError::InvalidMint);
    }
    if !id_eq(&a.destination_token_account.mint, &cfg.mint) {
        return Err(PremiumError::InvalidMint);
    }
    if amount == 0 {
        return Err(PremiumError::InvalidAmount);
    }
    Ok(
        (
            TransferOrder {
                source: a.vault.key,
                destination: a.destination_token_account.key,
                amount,
                authority: TransferAuthority::Derived { config: a.config_key },
            },
            VaultWithdrawn {
                authority: cfg.authority,
                destination: a.destination_token_account.key,
                amount,
                at: now,
            },
        ),
    )
}

} // verus!
