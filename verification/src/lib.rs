//! Verified core of a session billing and entitlement ledger.
//!
//! The library models a billing state machine that meters paid sessions
//! against a token balance: a global configuration record holds policy
//! (free-grant size, points conversion rate, pause flag) and the identities
//! of the administrator, the token mint and the custody vault; one ledger
//! record per (configuration, user, session) identity accumulates granted
//! value, spent value and loyalty points under checked arithmetic.
//!
//! Every operation is a pure, terminating state transition: it validates
//! authorization and invariants, and on success hands back the updated
//! records, the transfer it wants performed ([`ops::TransferOrder`]) and an
//! event describing the change. The surrounding host owns the clock, the
//! account store and the token-transfer machinery; it performs the returned
//! transfer and commits or discards the whole step atomically. On any error
//! the operations here change nothing, so a discarded step never leaves a
//! partial state behind.

pub mod accounts;
pub mod errors;
pub mod events;
pub mod ids;
pub mod laws;
pub mod ops;
pub mod records;
