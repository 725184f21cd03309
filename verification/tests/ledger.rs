use premium_billing::errors::PremiumError;
use premium_billing::ids::{AccountId, SessionHash};
use premium_billing::ops::init_or_validate_ledger;
use premium_billing::records::SessionLedger;

fn id(b: u8) -> AccountId {
    AccountId { bytes: [b; 32] }
}

fn hash(b: u8) -> SessionHash {
    SessionHash { bytes: [b; 32] }
}

#[test]
fn first_touch_creates_zeroed_record() {
    let mut ledger: Option<SessionLedger> = None;
    init_or_validate_ledger(&mut ledger, id(3), id(5), hash(9), 253, 20).unwrap();
    let l = ledger.unwrap();
    assert_eq!(l.config, id(3));
    assert_eq!(l.user, id(5));
    assert_eq!(l.session_hash, hash(9));
    assert_eq!(l.total_granted, 0);
    assert_eq!(l.total_spent, 0);
    assert_eq!(l.points_charged, 0);
    assert!(!l.free_grant_claimed);
    assert_eq!(l.created_at, 20);
    assert_eq!(l.last_updated_at, 20);
    assert_eq!(l.bump, 253);
}

#[test]
fn matching_record_is_left_untouched() {
    let mut ledger: Option<SessionLedger> = None;
    init_or_validate_ledger(&mut ledger, id(3), id(5), hash(9), 253, 20).unwrap();
    let before = ledger;
    init_or_validate_ledger(&mut ledger, id(3), id(5), hash(9), 253, 99).unwrap();
    assert_eq!(ledger, before);
}

#[test]
fn mismatched_config_is_refused() {
    let mut ledger: Option<SessionLedger> = None;
    init_or_validate_ledger(&mut ledger, id(3), id(5), hash(9), 253, 20).unwrap();
    let before = ledger;
    let r = init_or_validate_ledger(&mut ledger, id(4), id(5), hash(9), 253, 21);
    assert_eq!(r.unwrap_err(), PremiumError::LedgerMismatch);
    assert_eq!(ledger, before);
}

#[test]
fn mismatched_user_is_refused() {
    let mut ledger: Option<SessionLedger> = None;
    init_or_validate_ledger(&mut ledger, id(3), id(5), hash(9), 253, 20).unwrap();
    let r = init_or_validate_ledger(&mut ledger, id(3), id(6), hash(9), 253, 21);
    assert_eq!(r.unwrap_err(), PremiumError::LedgerMismatch);
}

#[test]
fn mismatched_session_hash_is_refused() {
    let mut ledger: Option<SessionLedger> = None;
    init_or_validate_ledger(&mut ledger, id(3), id(5), hash(9), 253, 20).unwrap();
    let r = init_or_validate_ledger(&mut ledger, id(3), id(5), hash(10), 253, 21);
    assert_eq!(r.unwrap_err(), PremiumError::LedgerMismatch);
}

#[test]
fn hashes_differing_in_one_byte_are_distinct() {
    let mut ledger: Option<SessionLedger> = None;
    let mut other = [9u8; 32];
    other[31] = 10;
    init_or_validate_ledger(&mut ledger, id(3), id(5), hash(9), 253, 20).unwrap();
    let r = init_or_validate_ledger(
        &mut ledger,
        id(3),
        id(5),
        SessionHash { bytes: other },
        253,
        21,
    );
    assert_eq!(r.unwrap_err(), PremiumError::LedgerMismatch);
}
