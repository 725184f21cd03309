use premium_billing::accounts::{GrantFreeSession, InitializeConfig};
use premium_billing::errors::PremiumError;
use premium_billing::ids::{AccountId, SessionHash};
use premium_billing::ops::{TransferAuthority, grant_free_session, initialize_config};
use premium_billing::records::{PremiumConfig, SessionLedger, TokenAccountInfo};

fn id(b: u8) -> AccountId {
    AccountId { bytes: [b; 32] }
}

fn hash(b: u8) -> SessionHash {
    SessionHash { bytes: [b; 32] }
}

fn setup() -> (PremiumConfig, GrantFreeSession) {
    let mint = id(2);
    let config_key = id(3);
    let vault = TokenAccountInfo { key: id(4), owner: config_key, mint };
    let ia = InitializeConfig { authority: id(1), mint, config_key, config_bump: 254, vault };
    let (cfg, _) = initialize_config(ia, 1000, 5, 10).unwrap();
    let user = id(5);
    let ga = GrantFreeSession {
        authority: id(1),
        config_key,
        user,
        vault,
        user_token_account: TokenAccountInfo { key: id(6), owner: user, mint },
        ledger_bump: 253,
    };
    (cfg, ga)
}

#[test]
fn grant_first_touch_uses_configured_default() {
    let (cfg, ga) = setup();
    let mut ledger: Option<SessionLedger> = None;
    let (order, ev) = grant_free_session(&cfg, ga, hash(9), 0, &mut ledger, 20).unwrap();
    let l = ledger.unwrap();
    assert_eq!(l.config, ga.config_key);
    assert_eq!(l.user, ga.user);
    assert_eq!(l.session_hash, hash(9));
    assert_eq!(l.total_granted, 1000);
    assert_eq!(l.total_spent, 0);
    assert_eq!(l.points_charged, 0);
    assert!(l.free_grant_claimed);
    assert_eq!(l.created_at, 20);
    assert_eq!(l.last_updated_at, 20);
    assert_eq!(l.bump, 253);
    assert_eq!(order.source, ga.vault.key);
    assert_eq!(order.destination, ga.user_token_account.key);
    assert_eq!(order.amount, 1000);
    assert_eq!(order.authority, TransferAuthority::Derived { config: ga.config_key });
    assert_eq!(ev.user, ga.user);
    assert_eq!(ev.session_hash, hash(9));
    assert_eq!(ev.amount, 1000);
    assert_eq!(ev.points_equivalent, 5000);
    assert_eq!(ev.at, 20);
}

#[test]
fn grant_explicit_amount_overrides_default() {
    let (cfg, ga) = setup();
    let mut ledger: Option<SessionLedger> = None;
    let (order, ev) = grant_free_session(&cfg, ga, hash(9), 300, &mut ledger, 20).unwrap();
    assert_eq!(order.amount, 300);
    assert_eq!(ev.amount, 300);
    assert_eq!(ev.points_equivalent, 1500);
    assert_eq!(ledger.unwrap().total_granted, 300);
}

#[test]
fn grant_second_time_fails_already_claimed() {
    let (cfg, ga) = setup();
    let mut ledger: Option<SessionLedger> = None;
    grant_free_session(&cfg, ga, hash(9), 0, &mut ledger, 20).unwrap();
    let before = ledger;
    let r = grant_free_session(&cfg, ga, hash(9), 0, &mut ledger, 21);
    assert_eq!(r.unwrap_err(), PremiumError::FreeGrantAlreadyClaimed);
    assert_eq!(ledger, before);
}

#[test]
fn grant_distinct_sessions_are_independent() {
    let (cfg, ga) = setup();
    let mut first: Option<SessionLedger> = None;
    let mut second: Option<SessionLedger> = None;
    grant_free_session(&cfg, ga, hash(9), 0, &mut first, 20).unwrap();
    grant_free_session(&cfg, ga, hash(10), 0, &mut second, 21).unwrap();
    assert_eq!(first.unwrap().total_granted, 1000);
    assert_eq!(second.unwrap().total_granted, 1000);
}

#[test]
fn grant_fails_when_paused() {
    let (mut cfg, ga) = setup();
    cfg.paused = true;
    let mut ledger: Option<SessionLedger> = None;
    let r = grant_free_session(&cfg, ga, hash(9), 0, &mut ledger, 20);
    assert_eq!(r.unwrap_err(), PremiumError::BillingPaused);
    assert_eq!(ledger, None);
}

#[test]
fn grant_requires_stored_authority() {
    let (cfg, mut ga) = setup();
    ga.authority = id(9);
    let mut ledger: Option<SessionLedger> = None;
    let r = grant_free_session(&cfg, ga, hash(9), 0, &mut ledger, 20);
    assert_eq!(r.unwrap_err(), PremiumError::Unauthorized);
    assert_eq!(ledger, None);
}

#[test]
fn grant_rejects_vault_with_wrong_owner() {
    let (cfg, mut ga) = setup();
    ga.vault.owner = id(9);
    let mut ledger: Option<SessionLedger> = None;
    let r = grant_free_session(&cfg, ga, hash(9), 0, &mut ledger, 20);
    assert_eq!(r.unwrap_err(), PremiumError::VaultAuthorityMismatch);
}

#[test]
fn grant_rejects_vault_with_wrong_mint() {
    let (cfg, mut ga) = setup();
    ga.vault.mint = id(9);
    let mut ledger: Option<SessionLedger> = None;
    let r = grant_free_session(&cfg, ga, hash(9), 0, &mut ledger, 20);
    assert_eq!(r.unwrap_err(), PremiumError::InvalidMint);
}

#[test]
fn grant_rejects_user_token_account_with_wrong_owner() {
    let (cfg, mut ga) = setup();
    ga.user_token_account.owner = id(9);
    let mut ledger: Option<SessionLedger> = None;
    let r = grant_free_session(&cfg, ga, hash(9), 0, &mut ledger, 20);
    assert_eq!(r.unwrap_err(), PremiumError::InvalidUserTokenAccount);
}

#[test]
fn grant_rejects_user_token_account_with_wrong_mint() {
    let (cfg, mut ga) = setup();
    ga.user_token_account.mint = id(9);
    let mut ledger: Option<SessionLedger> = None;
    let r = grant_free_session(&cfg, ga, hash(9), 0, &mut ledger, 20);
    assert_eq!(r.unwrap_err(), PremiumError::InvalidMint);
}

#[test]
fn grant_rejects_mismatched_ledger_identity() {
    let (cfg, ga) = setup();
    let mut ledger: Option<SessionLedger> = None;
    grant_free_session(&cfg, ga, hash(9), 0, &mut ledger, 20).unwrap();
    let before = ledger;
    // Same stored record, different session hash supplied.
    let r = grant_free_session(&cfg, ga, hash(11), 0, &mut ledger, 21);
    assert_eq!(r.unwrap_err(), PremiumError::LedgerMismatch);
    assert_eq!(ledger, before);
}

#[test]
fn grant_overflow_of_total_granted_changes_nothing() {
    let (cfg, ga) = setup();
    let mut ledger: Option<SessionLedger> = None;
    grant_free_session(&cfg, ga, hash(9), 0, &mut ledger, 20).unwrap();
    let mut l = ledger.unwrap();
    l.total_granted = u64::MAX;
    l.free_grant_claimed = false;
    let mut ledger = Some(l);
    let before = ledger;
    let r = grant_free_session(&cfg, ga, hash(9), 1, &mut ledger, 21);
    assert_eq!(r.unwrap_err(), PremiumError::MathOverflow);
    assert_eq!(ledger, before);
}

#[test]
fn grant_overflow_of_points_equivalent_changes_nothing() {
    let (cfg, ga) = setup();
    // 5 points per token: an amount above u64::MAX / 5 overflows the event's
    // points computation while the counter addition still fits.
    let mut ledger: Option<SessionLedger> = None;
    let before = ledger;
    let r = grant_free_session(&cfg, ga, hash(9), u64::MAX / 5 + 1, &mut ledger, 20);
    assert_eq!(r.unwrap_err(), PremiumError::MathOverflow);
    assert_eq!(ledger, before);
}

#[test]
fn grant_rejects_zero_resolved_amount() {
    let (mut cfg, ga) = setup();
    // A configuration straight from initialization cannot hold a zero
    // default, so force the field to exercise the guard.
    cfg.free_grant_amount = 0;
    let mut ledger: Option<SessionLedger> = None;
    let r = grant_free_session(&cfg, ga, hash(9), 0, &mut ledger, 20);
    assert_eq!(r.unwrap_err(), PremiumError::InvalidAmount);
}
