//! The laws of the billing state machine, proved once and for all inputs:
//! the exactly-once free grant, the strictly additive accounting counters,
//! the immutability of a ledger's identity, the validity of every
//! observable configuration, and the exact scope of the pause flag.
//!
//! Each law is stated over the spec functions that the operations'
//! contracts use, so it holds of every execution of the corresponding
//! executable function.

use vstd::prelude::*;
use crate::accounts::{
    ChargePremium, GrantFreeSession, UpdateConfig, WithdrawFromVault, charge_accounts_error,
    grant_accounts_error,
};
use crate::errors::PremiumError;
use crate::ids::SessionHash;
use crate::records::{PremiumConfig, SessionLedger};
use crate::ops::{
    charge_error, grant_error, initialize_error, initialized_config, ledger_or_fresh,
    resolved_grant_amount, update_error, updated_config, withdraw_error,
};
use crate::accounts::InitializeConfig;

verus! {

/// Once the free grant is claimed for a session identity, no later grant
/// on that identity ever succeeds; and whenever the request passes the
/// account boundary and billing is not paused, the refusal is precisely
/// `FreeGrantAlreadyClaimed`. The operation's own contract adds that every
/// refusal leaves the ledger record exactly as it was.
pub proof fn lemma_free_grant_exactly_once(
    cfg: PremiumConfig,
    a: GrantFreeSession,
    l: SessionLedger,
    session_hash: SessionHash,
    grant_amount: u64,
)
    requires
        l.matches_identity(a.config_key, a.user, session_hash),
        l.free_grant_claimed,
    ensures
        grant_error(cfg, a, Some(l), session_hash, grant_amount) is Some,
        grant_accounts_error(cfg, a) is None && !cfg.paused ==> grant_error(
            cfg,
            a,
            Some(l),
            session_hash,
            grant_amount,
        ) == Some(PremiumError::FreeGrantAlreadyClaimed),
{
}

/// The claimed flag never returns from true to false: a committed grant
/// sets it, a committed charge leaves it as it was, and a first-touch
/// record starts with it unset.
pub proof fn lemma_claimed_monotone(
    l: SessionLedger,
    amount: u64,
    token_amount: u64,
    points: u64,
    now: i64,
)
    ensures
        l.granted(amount, now).free_grant_claimed,
        l.charged(token_amount, points, now).free_grant_claimed == l.free_grant_claimed,
{
}

/// Committed grants and charges never change a ledger record's fixed
/// identity fields, its creation time or its derivation byte.
pub proof fn lemma_identity_immutable(
    l: SessionLedger,
    amount: u64,
    token_amount: u64,
    points: u64,
    now: i64,
)
    ensures
        l.granted(amount, now).config == l.config,
        l.granted(amount, now).user == l.user,
        l.granted(amount, now).session_hash == l.session_hash,
        l.granted(amount, now).created_at == l.created_at,
        l.granted(amount, now).bump == l.bump,
        l.charged(token_amount, points, now).config == l.config,
        l.charged(token_amount, points, now).user == l.user,
        l.charged(token_amount, points, now).session_hash == l.session_hash,
        l.charged(token_amount, points, now).created_at == l.created_at,
        l.charged(token_amount, points, now).bump == l.bump,
{
}

/// Whether one more committed charge of `c` (token amount, points) keeps
/// both counters in range.
pub open spec fn charge_step_ok(l: SessionLedger, c: (u64, u64)) -> bool {
    l.total_spent + c.0 <= u64::MAX && l.points_charged + c.1 <= u64::MAX
}

/// The record after a history of committed charges, folded in order, all
/// at time `now`.
pub open spec fn apply_charges(l: SessionLedger, cs: Seq<(u64, u64)>, now: i64) -> SessionLedger
    decreases cs.len(),
{
    if cs.len() == 0 {
        l
    } else {
        apply_charges(l.charged(cs[0].0, cs[0].1, now), cs.drop_first(), now)
    }
}

/// Whether every charge of the history stays in range at the state where
/// it is committed.
pub open spec fn charges_ok(l: SessionLedger, cs: Seq<(u64, u64)>, now: i64) -> bool
    decreases cs.len(),
{
    cs.len() == 0 || (charge_step_ok(l, cs[0]) && charges_ok(
        l.charged(cs[0].0, cs[0].1, now),
        cs.drop_first(),
        now,
    ))
}

/// The sum of the token amounts of a charge history.
pub open spec fn sum_spent(cs: Seq<(u64, u64)>) -> int
    decreases cs.len(),
{
    if cs.len() == 0 {
        0
    } else {
        cs[0].0 + sum_spent(cs.drop_first())
    }
}

/// The sum of the points of a charge history.
pub open spec fn sum_points(cs: Seq<(u64, u64)>) -> int
    decreases cs.len(),
{
    if cs.len() == 0 {
        0
    } else {
        cs[0].1 + sum_points(cs.drop_first())
    }
}

/// Both sums of a charge history are non-negative.
pub proof fn lemma_sums_nonneg(cs: Seq<(u64, u64)>)
    ensures
        sum_spent(cs) >= 0,
        sum_points(cs) >= 0,
    decreases cs.len(),
{
    if cs.len() > 0 {
        lemma_sums_nonneg(cs.drop_first());
    }
}

/// The accounting law of charges: across any history of committed charges,
/// `total_spent` and `points_charged` grow by exactly the sum of the
/// committed token amounts and points — so both counters are
/// non-decreasing — while the identity fields, the free-grant state and
/// `total_granted` are untouched.
pub proof fn lemma_charges_accumulate(l: SessionLedger, cs: Seq<(u64, u64)>, now: i64)
    requires
        charges_ok(l, cs, now),
    ensures
        apply_charges(l, cs, now).total_spent == l.total_spent + sum_spent(cs),
        apply_charges(l, cs, now).points_charged == l.points_charged + sum_points(cs),
        apply_charges(l, cs, now).total_spent >= l.total_spent,
        apply_charges(l, cs, now).points_charged >= l.points_charged,
        apply_charges(l, cs, now).config == l.config,
        apply_charges(l, cs, now).user == l.user,
        apply_charges(l, cs, now).session_hash == l.session_hash,
        apply_charges(l, cs, now).free_grant_claimed == l.free_grant_claimed,
        apply_charges(l, cs, now).total_granted == l.total_granted,
        apply_charges(l, cs, now).created_at == l.created_at,
    decreases cs.len(),
{
    lemma_sums_nonneg(cs);
    if cs.len() > 0 {
        let l1 = l.charged(cs[0].0, cs[0].1, now);
        lemma_charges_accumulate(l1, cs.drop_first(), now);
    }
}

/// One attempted step of a session's history, as the host applies it
/// atomically: a grant or a charge, committed when its decision chain
/// accepts and without any effect when it refuses.
pub enum SessionOp {
    Grant { grant_amount: u64, now: i64 },
    Charge { token_amount: u64, points_equivalent: u64, now: i64 },
}

/// The ledger state after one attempted step: the committed successor when
/// the operation's decision accepts, the unchanged state when it refuses.
pub open spec fn apply_op(
    cfg: PremiumConfig,
    ga: GrantFreeSession,
    ca: ChargePremium,
    session_hash: SessionHash,
    ledger: Option<SessionLedger>,
    op: SessionOp,
) -> Option<SessionLedger> {
    match op {
        SessionOp::Grant { grant_amount, now } => {
            if grant_error(cfg, ga, ledger, session_hash, grant_amount) is None {
                Some(
                    ledger_or_fresh(
                        ledger,
                        ga.config_key,
                        ga.user,
                        session_hash,
                        ga.ledger_bump,
                        now,
                    ).granted(resolved_grant_amount(cfg, grant_amount), now),
                )
            } else {
                ledger
            }
        },
        SessionOp::Charge { token_amount, points_equivalent, now } => {
            if charge_error(cfg, ca, ledger, session_hash, token_amount, points_equivalent)
                is None {
                Some(
                    ledger_or_fresh(
                        ledger,
                        ca.config_key,
                        ca.user,
                        session_hash,
                        ca.ledger_bump,
                        now,
                    ).charged(token_amount, points_equivalent, now),
                )
            } else {
                ledger
            }
        },
    }
}

/// The ledger state after a whole history of attempted steps, in order.
pub open spec fn apply_ops(
    cfg: PremiumConfig,
    ga: GrantFreeSession,
    ca: ChargePremium,
    session_hash: SessionHash,
    ledger: Option<SessionLedger>,
    history: Seq<SessionOp>,
) -> Option<SessionLedger>
    decreases history.len(),
{
    if history.len() == 0 {
        ledger
    } else {
        apply_ops(
            cfg,
            ga,
            ca,
            session_hash,
            apply_op(cfg, ga, ca, session_hash, ledger, history[0]),
            history.drop_first(),
        )
    }
}

/// Once the free grant is claimed, a further grant attempt on that record
/// is a refusal without effect, whatever its amount: the step leaves the
/// state exactly as it was.
pub proof fn lemma_grant_step_noop_once_claimed(
    cfg: PremiumConfig,
    ga: GrantFreeSession,
    ca: ChargePremium,
    l: SessionLedger,
    session_hash: SessionHash,
    grant_amount: u64,
    now: i64,
)
    requires
        l.free_grant_claimed,
    ensures
        apply_op(cfg, ga, ca, session_hash, Some(l), SessionOp::Grant { grant_amount, now })
            == Some(l),
{
}

/// Across any history of grant and charge attempts — committed or refused,
/// in any order — a record whose free grant is claimed keeps existing and
/// keeps the grant claimed: the exactly-once state is permanent.
pub proof fn lemma_claimed_monotone_over_history(
    cfg: PremiumConfig,
    ga: GrantFreeSession,
    ca: ChargePremium,
    session_hash: SessionHash,
    ledger: Option<SessionLedger>,
    history: Seq<SessionOp>,
)
    requires
        ledger is Some,
        ledger.unwrap().free_grant_claimed,
    ensures
        apply_ops(cfg, ga, ca, session_hash, ledger, history) is Some,
        apply_ops(cfg, ga, ca, session_hash, ledger, history).unwrap().free_grant_claimed,
    decreases history.len(),
{
    if history.len() > 0 {
        lemma_claimed_monotone_over_history(
            cfg,
            ga,
            ca,
            session_hash,
            apply_op(cfg, ga, ca, session_hash, ledger, history[0]),
            history.drop_first(),
        );
    }
}

/// A grant or charge that reaches an existing record whose stored identity
/// differs from the supplied triple is refused with `LedgerMismatch` —
/// never a silent overwrite — whenever the checks ahead of it pass: the
/// account boundary and the pause flag, and for a charge also the
/// positive-amount rule. The operations' contracts add that the record
/// stays exactly as it was.
pub proof fn lemma_identity_mismatch_refused(
    cfg: PremiumConfig,
    ga: GrantFreeSession,
    ca: ChargePremium,
    l: SessionLedger,
    session_hash: SessionHash,
    grant_amount: u64,
    token_amount: u64,
    points_equivalent: u64,
)
    requires
        !cfg.paused,
    ensures
        grant_accounts_error(cfg, ga) is None && !l.matches_identity(
            ga.config_key,
            ga.user,
            session_hash,
        ) ==> grant_error(cfg, ga, Some(l), session_hash, grant_amount) == Some(
            PremiumError::LedgerMismatch,
        ),
        charge_accounts_error(cfg, ca) is None && token_amount > 0 && !l.matches_identity(
            ca.config_key,
            ca.user,
            session_hash,
        ) ==> charge_error(cfg, ca, Some(l), session_hash, token_amount, points_equivalent) == Some(
            PremiumError::LedgerMismatch,
        ),
{
}

/// A configuration violating its invariant is never observable: creation
/// and update refuse a zero free-grant size with `InvalidAmount` and a
/// zero points rate with `InvalidPointsRate`, exactly; and whenever they
/// accept, the configuration they produce satisfies the invariant.
pub proof fn lemma_config_always_valid(
    cfg: PremiumConfig,
    ia: InitializeConfig,
    ua: UpdateConfig,
    free_grant_amount: u64,
    points_per_token: u64,
    paused: bool,
)
    ensures
        initialize_error(free_grant_amount, points_per_token) is None <==> free_grant_amount > 0
            && points_per_token > 0,
        free_grant_amount == 0 ==> initialize_error(free_grant_amount, points_per_token) == Some(
            PremiumError::InvalidAmount,
        ),
        free_grant_amount > 0 && points_per_token == 0 ==> initialize_error(
            free_grant_amount,
            points_per_token,
        ) == Some(PremiumError::InvalidPointsRate),
        initialize_error(free_grant_amount, points_per_token) is None ==> initialized_config(
            ia,
            free_grant_amount,
            points_per_token,
        ).wf(),
        update_error(cfg, ua, free_grant_amount, points_per_token) is None ==> updated_config(
            cfg,
            free_grant_amount,
            points_per_token,
            paused,
        ).wf(),
{
}

/// When billing is paused, every grant and every charge that passes the
/// account boundary is refused with `BillingPaused`, whatever the other
/// inputs; the operations' contracts add that nothing changes.
pub proof fn lemma_paused_rejects_metering(
    cfg: PremiumConfig,
    ga: GrantFreeSession,
    ca: ChargePremium,
    ledger: Option<SessionLedger>,
    session_hash: SessionHash,
    grant_amount: u64,
    token_amount: u64,
    points_equivalent: u64,
)
    requires
        cfg.paused,
    ensures
        grant_accounts_error(cfg, ga) is None ==> grant_error(
            cfg,
            ga,
            ledger,
            session_hash,
            grant_amount,
        ) == Some(PremiumError::BillingPaused),
        charge_accounts_error(cfg, ca) is None ==> charge_error(
            cfg,
            ca,
            ledger,
            session_hash,
            token_amount,
            points_equivalent,
        ) == Some(PremiumError::BillingPaused),
{
}

/// The pause flag plays no part in updating the configuration or in
/// withdrawing from the vault: two configurations that differ only in the
/// flag make the same decision on every such request.
pub proof fn lemma_pause_ignored_by_treasury(
    cfg: PremiumConfig,
    ua: UpdateConfig,
    wa: WithdrawFromVault,
    free_grant_amount: u64,
    points_per_token: u64,
    amount: u64,
)
    ensures
        update_error(cfg, ua, free_grant_amount, points_per_token) == update_error(
            (PremiumConfig { paused: !cfg.paused, ..cfg }),
            ua,
            free_grant_amount,
            points_per_token,
        ),
        withdraw_error(cfg, wa, amount) == withdraw_error(
            (PremiumConfig { paused: !cfg.paused, ..cfg }),
            wa,
            amount,
        ),
{
}

/// A grant whose counter addition would leave the range is refused with
/// `MathOverflow`: with `total_granted` already at the maximum, every
/// further grant of a positive amount fails, and the operation's contract
/// adds that the record stays unchanged.
pub proof fn lemma_grant_overflow_refused(
    cfg: PremiumConfig,
    a: GrantFreeSession,
    l: SessionLedger,
    session_hash: SessionHash,
    grant_amount: u64,
)
    requires
        grant_accounts_error(cfg, a) is None,
        !cfg.paused,
        l.matches_identity(a.config_key, a.user, session_hash),
        !l.free_grant_claimed,
        l.total_granted == u64::MAX,
        resolved_grant_amount(cfg, grant_amount) > 0,
    ensures
        grant_error(cfg, a, Some(l), session_hash, grant_amount) == Some(PremiumError::MathOverflow),
{
}

} // verus!
