//! One leg of a swap: funds held until the taker withdraws them with the
//! secret or the maker takes them back after the cancellation window opens.

use vstd::prelude::*;
use crate::types::{
    EscrowError, EscrowImmutables, EscrowState, EscrowStatus, Timestamp, Transfer,
};

verus! {

/// Whether a leg in `state` is bound to a secret: it stores a hash.
pub open spec fn is_bound(state: EscrowState) -> bool {
    state.secret_hash@.len() > 0
}

/// Whether `secret`, whose hash is `digest`, unlocks a leg in `state`. An
/// empty secret never does. A bound leg opens only to a secret whose hash
/// equals the stored one; a leg that stores no hash opens to every
/// non-empty secret.
pub open spec fn secret_unlocks(state: EscrowState, secret: Seq<char>, digest: Seq<char>) -> bool {
    &&& secret.len() > 0
    &&& is_bound(state) ==> digest == state.secret_hash@
}

/// What a withdrawal at time `now` with `secret`, whose hash is `digest`,
/// yields on a leg in `state`: the transfer to the taker, or the first
/// reason that forbids it.
pub open spec fn withdraw_result(
    state: EscrowState,
    secret: Seq<char>,
    digest: Seq<char>,
    now: Timestamp,
) -> Result<Transfer, EscrowError> {
    if state.is_withdrawn {
        Err(EscrowError::AlreadyWithdrawn)
    } else if state.is_cancelled {
        Err(EscrowError::AlreadyCancelled)
    } else if now < state.immutables.withdrawal_opens() {
        Err(EscrowError::TimelockNotElapsed)
    } else if !secret_unlocks(state, secret, digest) {
        Err(EscrowError::InvalidSecret)
    } else {
        Ok(Transfer { to: state.immutables.taker, amount: state.immutables.amount })
    }
}

/// The state in which a withdrawal at time `now` with `secret`, whose hash
/// is `digest`, leaves a leg that was in `state`.
pub open spec fn after_withdraw(
    state: EscrowState,
    secret: Seq<char>,
    digest: Seq<char>,
    now: Timestamp,
) -> EscrowState {
    if withdraw_result(state, secret, digest, now) is Ok {
        EscrowState { is_withdrawn: true, ..state }
    } else {
        state
    }
}

/// What a cancellation at time `now` yields on a leg in `state`: the
/// transfer back to the maker, or the first reason that forbids it.
pub open spec fn cancel_result(state: EscrowState, now: Timestamp) -> Result<
    Transfer,
    EscrowError,
> {
    if state.is_withdrawn {
        Err(EscrowError::AlreadyWithdrawn)
    } else if state.is_cancelled {
        Err(EscrowError::AlreadyCancelled)
    } else if now < state.immutables.cancellation_opens() {
        Err(EscrowError::TimelockNotElapsed)
    } else {
        Ok(Transfer { to: state.immutables.order.maker, amount: state.immutables.amount })
    }
}

/// The state in which a cancellation at time `now` leaves a leg that was in
/// `state`.
pub open spec fn after_cancel(state: EscrowState, now: Timestamp) -> EscrowState {
    if cancel_result(state, now) is Ok {
        EscrowState { is_cancelled: true, ..state }
    } else {
        state
    }
}

/// The terms with which a leg created at time `now` from `immutables`
/// starts: a deployment time that is still zero is set to `now`.
pub open spec fn stamped(immutables: EscrowImmutables, now: Timestamp) -> EscrowImmutables {
    if immutables.deployed_at == 0 {
        EscrowImmutables { deployed_at: now, ..immutables }
    } else {
        immutables
    }
}

/// Tests whether the window that opens `offset` after `anchor` is open at
/// `now`. A window that would open beyond the clock's range never is.
fn window_open(now: Timestamp, anchor: Timestamp, offset: u64) -> (open: bool)
    ensures
        open == (now >= anchor + offset),
{
    match anchor.checked_add(offset) {
        Some(opens) => now >= opens,
        None => false,
    }
}

/// A single escrow leg.
#[derive(Debug, PartialEq, Eq)]
pub struct Escrow {
    pub state: EscrowState,
}

impl Escrow {
    /// A leg holds a positive amount under an ordered schedule and is in at
    /// most one terminal state.
    pub open spec fn wf(&self) -> bool {
        &&& self.state.well_formed()
        &&& self.state.immutables.amount > 0
        &&& self.state.immutables.time_locks.well_formed()
    }

    /// Creates an active leg at time `now` that stores no hash, so that
    /// every non-empty secret unlocks it.
    pub fn new(immutables: EscrowImmutables, now: Timestamp) -> (leg: Self)
        requires
            immutables.amount > 0,
            immutables.time_locks.well_formed(),
        ensures
            leg.wf(),
            leg.state.immutables == stamped(immutables, now),
            !leg.state.is_withdrawn,
            !leg.state.is_cancelled,
            leg.state.secret_hash@ == Seq::<char>::empty(),
            leg.state.status() == EscrowStatus::Active,
            !is_bound(leg.state),
    {
        Escrow::with_secret_hash(immutables, String::new(), now)
    }

    /// Creates an active leg at time `now` that stores `secret_hash`. Where
    /// the hash is not empty the leg is bound: it pays out only against a
    /// secret with that hash.
    pub fn with_secret_hash(immutables: EscrowImmutables, secret_hash: String, now: Timestamp) -> (leg:
        Self)
        requires
            immutables.amount > 0,
            immutables.time_locks.well_formed(),
        ensures
            leg.wf(),
            leg.state.immutables == stamped(immutables, now),
            !leg.state.is_withdrawn,
            !leg.state.is_cancelled,
            leg.state.secret_hash == secret_hash,
            leg.state.status() == EscrowStatus::Active,
    {
        let deployed_at = immutables.deployed_at;
        let stamped_immutables = if deployed_at == 0 {
            immutables.with_deployed_at(now)
        } else {
            immutables
        };
        Escrow {
            state: EscrowState {
                immutables: stamped_immutables,
                is_withdrawn: false,
                is_cancelled: false,
                secret_hash,
            },
        }
    }

    /// Pays the leg out to the taker, if it is still active, its withdrawal
    /// window is open at `now` and `secret` unlocks it. `secret_digest` is
    /// the hash of `secret`, computed by the host in the form in which the
    /// leg's hash was stored; it is compared with the stored hash and not
    /// recomputed here. A leg that stores no hash opens to every non-empty
    /// secret. The flag is set before the transfer is handed out, and
    /// nothing changes on an error.
    pub fn withdraw(&mut self, secret: String, secret_digest: String, now: Timestamp) -> (r: Result<
        Transfer,
        EscrowError,
    >)
        ensures
            r == withdraw_result(old(self).state, secret@, secret_digest@, now),
            final(self).state == after_withdraw(old(self).state, secret@, secret_digest@, now),
            old(self).wf() ==> final(self).wf(),
    {
        if self.state.is_withdrawn {
            return Err(EscrowError::AlreadyWithdrawn);
        }
        if self.state.is_cancelled {
            return Err(EscrowError::AlreadyCancelled);
        }
        if !window_open(
            now,
            self.state.immutables.deployed_at,
            self.state.immutables.time_locks.src_withdrawal,
        ) {
            return Err(EscrowError::TimelockNotElapsed);
        }
        if secret.as_str().is_empty() {
            return Err(EscrowError::InvalidSecret);
        }
        if !self.state.secret_hash.as_str().is_empty() && !(secret_digest
            == self.state.secret_hash) {
            return Err(EscrowError::InvalidSecret);
        }
        self.state.is_withdrawn = true;
        Ok(
            Transfer {
                to: self.state.immutables.taker.clone(),
                amount: self.state.immutables.amount,
            },
        )
    }

    /// Refunds the leg to the maker, if it is still active and its
    /// cancellation window is open at `now`. The flag is set before the
    /// transfer is handed out, and nothing changes on an error.
    pub fn cancel(&mut self, now: Timestamp) -> (r: Result<Transfer, EscrowError>)
        ensures
            r == cancel_result(old(self).state, now),
            final(self).state == after_cancel(old(self).state, now),
            old(self).wf() ==> final(self).wf(),
    {
        if self.state.is_withdrawn {
            return Err(EscrowError::AlreadyWithdrawn);
        }
        if self.state.is_cancelled {
            return Err(EscrowError::AlreadyCancelled);
        }
        if !window_open(
            now,
            self.state.immutables.deployed_at,
            self.state.immutables.time_locks.src_cancellation,
        ) {
            return Err(EscrowError::TimelockNotElapsed);
        }
        self.state.is_cancelled = true;
        Ok(
            Transfer {
                to: self.state.immutables.order.maker.clone(),
                amount: self.state.immutables.amount,
            },
        )
    }

    /// A copy of the leg's state.
    pub fn get_state(&self) -> (state: EscrowState)
        ensures
            state == self.state,
    {
        self.state.clone()
    }

    /// A copy of the leg's terms.
    pub fn get_immutables(&self) -> (immutables: EscrowImmutables)
        ensures
            immutables == self.state.immutables,
    {
        self.state.immutables.clone()
    }
}

/// The rejection that a closed window gives.
pub open spec fn too_early() -> Result<Transfer, EscrowError> {
    Err(EscrowError::TimelockNotElapsed)
}

/// On an active leg a withdrawal is rejected for the time lock exactly
/// while the withdrawal window is closed, and with a secret that unlocks
/// the leg it succeeds at every later moment and leaves the leg withdrawn.
pub proof fn withdraw_follows_time_lock(
    state: EscrowState,
    secret: Seq<char>,
    digest: Seq<char>,
    now: Timestamp,
)
    requires
        state.status() == EscrowStatus::Active,
    ensures
        now < state.immutables.withdrawal_opens() <==> withdraw_result(state, secret, digest, now)
            == too_early(),
        now >= state.immutables.withdrawal_opens() && secret_unlocks(state, secret, digest) ==> {
            &&& withdraw_result(state, secret, digest, now) is Ok
            &&& after_withdraw(state, secret, digest, now).status() == EscrowStatus::Withdrawn
        },
{
}

/// The rejection that a secret which does not unlock the leg gives.
pub open spec fn wrong_secret() -> Result<Transfer, EscrowError> {
    Err(EscrowError::InvalidSecret)
}

/// The hash binds: on an active leg whose withdrawal window is open, a
/// secret is rejected as invalid exactly when it is empty or the leg is
/// bound and the secret's hash differs from the stored one, and then the
/// leg stays as it was.
pub proof fn only_the_bound_secret_withdraws(
    state: EscrowState,
    secret: Seq<char>,
    digest: Seq<char>,
    now: Timestamp,
)
    requires
        state.status() == EscrowStatus::Active,
        now >= state.immutables.withdrawal_opens(),
    ensures
        withdraw_result(state, secret, digest, now) == wrong_secret() <==> secret.len() == 0 || (
        state.secret_hash@.len() > 0 && digest != state.secret_hash@),
        withdraw_result(state, secret, digest, now) == wrong_secret() ==> after_withdraw(
            state,
            secret,
            digest,
            now,
        ) == state,
        withdraw_result(state, secret, digest, now) is Ok || withdraw_result(
            state,
            secret,
            digest,
            now,
        ) == wrong_secret(),
{
}

/// On an active leg a cancellation is rejected for the time lock exactly
/// while the cancellation window is closed, and succeeds at every later
/// moment and leaves the leg cancelled.
pub proof fn cancel_follows_time_lock(state: EscrowState, now: Timestamp)
    requires
        state.status() == EscrowStatus::Active,
    ensures
        now < state.immutables.cancellation_opens() <==> cancel_result(state, now) == too_early(),
        now >= state.immutables.cancellation_opens() ==> {
            &&& cancel_result(state, now) is Ok
            &&& after_cancel(state, now).status() == EscrowStatus::Cancelled
        },
{
}

/// The rejection that a terminal leg in `state` gives to every operation.
pub open spec fn terminal_rejection(state: EscrowState) -> Result<Transfer, EscrowError> {
    if state.is_withdrawn {
        Err(EscrowError::AlreadyWithdrawn)
    } else {
        Err(EscrowError::AlreadyCancelled)
    }
}

/// A leg that is withdrawn or cancelled rejects every withdrawal and every
/// cancellation, whatever the time and the secret, and stays as it is.
pub proof fn terminal_leg_rejects_everything(
    state: EscrowState,
    secret: Seq<char>,
    digest: Seq<char>,
    now: Timestamp,
)
    requires
        state.status() != EscrowStatus::Active,
    ensures
        withdraw_result(state, secret, digest, now) == terminal_rejection(state),
        cancel_result(state, now) == terminal_rejection(state),
        after_withdraw(state, secret, digest, now) == state,
        after_cancel(state, now) == state,
{
}

/// A leg hands out at most one transfer: after an operation that succeeded,
/// the leg is terminal, so no later operation succeeds.
pub proof fn success_is_final(
    state: EscrowState,
    secret: Seq<char>,
    digest: Seq<char>,
    now: Timestamp,
    later_secret: Seq<char>,
    later_digest: Seq<char>,
    later: Timestamp,
)
    ensures
        withdraw_result(state, secret, digest, now) is Ok ==> {
            let next = after_withdraw(state, secret, digest, now);
            &&& next.status() == EscrowStatus::Withdrawn
            &&& withdraw_result(next, later_secret, later_digest, later) is Err
            &&& cancel_result(next, later) is Err
        },
        cancel_result(state, now) is Ok ==> {
            let next = after_cancel(state, now);
            &&& next.status() == EscrowStatus::Cancelled
            &&& withdraw_result(next, later_secret, later_digest, later) is Err
            &&& cancel_result(next, later) is Err
        },
{
}

} // verus!
