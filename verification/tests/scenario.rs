//! The full walk through one deployment: initialize, grant once, refuse
//! the second grant, charge, withdraw.

use premium_billing::accounts::{
    ChargePremium, GrantFreeSession, InitializeConfig, WithdrawFromVault,
};
use premium_billing::errors::PremiumError;
use premium_billing::ids::{AccountId, SessionHash};
use premium_billing::ops::{
    charge_premium, grant_free_session, initialize_config, withdraw_from_vault,
};
use premium_billing::records::{SessionLedger, TokenAccountInfo};

fn id(b: u8) -> AccountId {
    AccountId { bytes: [b; 32] }
}

#[test]
fn full_session_lifecycle() {
    let authority = id(1);
    let mint = id(2);
    let config_key = id(3);
    let vault = TokenAccountInfo { key: id(4), owner: config_key, mint };
    let user = id(5);
    let user_token_account = TokenAccountInfo { key: id(6), owner: user, mint };
    let session = SessionHash { bytes: [9; 32] };

    let ia = InitializeConfig { authority, mint, config_key, config_bump: 254, vault };
    let (cfg, _) = initialize_config(ia, 1000, 5, 10).unwrap();
    assert!(!cfg.paused);

    let ga = GrantFreeSession {
        authority,
        config_key,
        user,
        vault,
        user_token_account,
        ledger_bump: 253,
    };
    let mut ledger: Option<SessionLedger> = None;
    let (order, ev) = grant_free_session(&cfg, ga, session, 0, &mut ledger, 20).unwrap();
    assert_eq!(ledger.unwrap().total_granted, 1000);
    assert!(ledger.unwrap().free_grant_claimed);
    assert_eq!(order.amount, 1000);
    assert_eq!(ev.amount, 1000);
    assert_eq!(ev.points_equivalent, 5000);

    let before = ledger;
    let r = grant_free_session(&cfg, ga, session, 0, &mut ledger, 21);
    assert_eq!(r.unwrap_err(), PremiumError::FreeGrantAlreadyClaimed);
    assert_eq!(ledger, before);

    let ca = ChargePremium { user, config_key, vault, user_token_account, ledger_bump: 253 };
    charge_premium(&cfg, ca, session, 200, 1000, &mut ledger, 22).unwrap();
    assert_eq!(ledger.unwrap().total_spent, 200);
    assert_eq!(ledger.unwrap().points_charged, 1000);
    assert_eq!(ledger.unwrap().total_granted, 1000);

    let wa = WithdrawFromVault {
        authority,
        config_key,
        vault,
        destination_token_account: TokenAccountInfo { key: id(7), owner: authority, mint },
    };
    let before = ledger;
    let (order, _) = withdraw_from_vault(&cfg, wa, 50, 23).unwrap();
    assert_eq!(order.amount, 50);
    assert_eq!(order.source, vault.key);
    // A withdrawal is a pure treasury operation: the ledger is untouched.
    assert_eq!(ledger, before);
}

#[test]
fn failed_attempts_leave_retry_possible() {
    let authority = id(1);
    let mint = id(2);
    let config_key = id(3);
    let vault = TokenAccountInfo { key: id(4), owner: config_key, mint };
    let user = id(5);
    let user_token_account = TokenAccountInfo { key: id(6), owner: user, mint };
    let session = SessionHash { bytes: [9; 32] };

    let ia = InitializeConfig { authority, mint, config_key, config_bump: 254, vault };
    let (mut cfg, _) = initialize_config(ia, 1000, 5, 10).unwrap();

    let ga = GrantFreeSession {
        authority,
        config_key,
        user,
        vault,
        user_token_account,
        ledger_bump: 253,
    };
    let mut ledger: Option<SessionLedger> = None;

    // A refused attempt mutates nothing, so the same request succeeds once
    // the configuration allows it again.
    cfg.paused = true;
    let r = grant_free_session(&cfg, ga, session, 0, &mut ledger, 20);
    assert_eq!(r.unwrap_err(), PremiumError::BillingPaused);
    assert_eq!(ledger, None);
    cfg.paused = false;
    grant_free_session(&cfg, ga, session, 0, &mut ledger, 21).unwrap();
    assert_eq!(ledger.unwrap().total_granted, 1000);
}
