//! The data model of a swap: the order, its time locks, and the terms and
//! state of one escrow leg.

use vstd::prelude::*;
use crate::account::AccountId;

verus! {

/// An amount of the ledger's native value.
pub type Balance = u128;

/// A reading of the ledger's clock.
pub type Timestamp = u64;

/// The identifier that a factory assigns to a leg.
pub type EscrowId = u64;

/// Why an operation was rejected.
#[derive(Clone, Copy, Debug, PartialEq, Eq, Structural)]
pub enum EscrowError {
    /// The caller is not the owner.
    Unauthorized,
    /// The leg has already paid out to the taker.
    AlreadyWithdrawn,
    /// The leg has already been refunded to the maker.
    AlreadyCancelled,
    /// The window for the operation has not opened yet.
    TimelockNotElapsed,
    /// The secret does not unlock the leg.
    InvalidSecret,
    /// The ledger could not set the leg up: the name of its account is not
    /// valid, or its funding does not fit a balance.
    NotDeployable,
}

/// The economic terms of a swap.
#[derive(Debug, PartialEq, Eq)]
pub struct CrossChainOrder {
    pub maker: AccountId,
    pub making_amount: Balance,
    pub taking_amount: Balance,
    pub maker_asset: AccountId,
    pub taker_asset: AccountId,
    pub salt: u64,
    pub nonce: u64,
    pub src_chain_id: u64,
    pub dst_chain_id: u64,
    pub src_safety_deposit: Balance,
    pub dst_safety_deposit: Balance,
    pub allow_partial_fills: bool,
    pub allow_multiple_fills: bool,
}

impl Clone for CrossChainOrder {
    fn clone(&self) -> (r: Self)
        ensures
            r == *self,
    {
        CrossChainOrder {
            maker: self.maker.clone(),
            making_amount: self.making_amount,
            taking_amount: self.taking_amount,
            maker_asset: self.maker_asset.clone(),
            taker_asset: self.taker_asset.clone(),
            salt: self.salt,
            nonce: self.nonce,
            src_chain_id: self.src_chain_id,
            dst_chain_id: self.dst_chain_id,
            src_safety_deposit: self.src_safety_deposit,
            dst_safety_deposit: self.dst_safety_deposit,
            allow_partial_fills: self.allow_partial_fills,
            allow_multiple_fills: self.allow_multiple_fills,
        }
    }
}

/// The schedule of a swap: seven offsets from the moment a leg is deployed.
#[derive(Clone, Copy, Debug, PartialEq, Eq, Structural)]
pub struct TimeLocks {
    pub src_withdrawal: u64,
    pub src_public_withdrawal: u64,
    pub src_cancellation: u64,
    pub src_public_cancellation: u64,
    pub dst_withdrawal: u64,
    pub dst_public_withdrawal: u64,
    pub dst_cancellation: u64,
}

impl TimeLocks {
    /// The windows of each side open in order: withdrawal, public
    /// withdrawal, cancellation, and (on the source side) public
    /// cancellation.
    pub open spec fn well_formed(&self) -> bool {
        &&& self.src_withdrawal <= self.src_public_withdrawal
        &&& self.src_public_withdrawal <= self.src_cancellation
        &&& self.src_cancellation <= self.src_public_cancellation
        &&& self.dst_withdrawal <= self.dst_public_withdrawal
        &&& self.dst_public_withdrawal <= self.dst_cancellation
    }

    /// Tests whether the windows open in order.
    pub fn is_well_formed(&self) -> (ok: bool)
        ensures
            ok == self.well_formed(),
    {
        self.src_withdrawal <= self.src_public_withdrawal
            && self.src_public_withdrawal <= self.src_cancellation
            && self.src_cancellation <= self.src_public_cancellation
            && self.dst_withdrawal <= self.dst_public_withdrawal
            && self.dst_public_withdrawal <= self.dst_cancellation
    }
}

/// The terms of one leg. A deployment time of zero means that the leg has
/// not been deployed yet.
#[derive(Debug, PartialEq, Eq)]
pub struct EscrowImmutables {
    pub order: CrossChainOrder,
    pub time_locks: TimeLocks,
    pub deployed_at: Timestamp,
    pub taker: AccountId,
    pub amount: Balance,
}

impl Clone for EscrowImmutables {
    fn clone(&self) -> (r: Self)
        ensures
            r == *self,
    {
        EscrowImmutables {
            order: self.order.clone(),
            time_locks: self.time_locks,
            deployed_at: self.deployed_at,
            taker: self.taker.clone(),
            amount: self.amount,
        }
    }
}

impl EscrowImmutables {
    /// The terms of a leg that has not been deployed yet.
    pub fn new(
        order: CrossChainOrder,
        time_locks: TimeLocks,
        taker: AccountId,
        amount: Balance,
    ) -> (r: Self)
        ensures
            r == (EscrowImmutables { order, time_locks, deployed_at: 0, taker, amount }),
    {
        EscrowImmutables { order, time_locks, deployed_at: 0, taker, amount }
    }

    /// The same terms with another deployment time.
    pub fn with_deployed_at(self, deployed_at: Timestamp) -> (r: Self)
        ensures
            r == (EscrowImmutables { deployed_at, ..self }),
    {
        let mut updated = self;
        updated.deployed_at = deployed_at;
        updated
    }

    /// The moment from which the taker may withdraw.
    pub open spec fn withdrawal_opens(&self) -> int {
        self.deployed_at + self.time_locks.src_withdrawal
    }

    /// The moment from which the maker may take the funds back.
    pub open spec fn cancellation_opens(&self) -> int {
        self.deployed_at + self.time_locks.src_cancellation
    }
}

/// The terms of a leg together with what has happened to it.
#[derive(Debug, PartialEq, Eq)]
pub struct EscrowState {
    pub immutables: EscrowImmutables,
    pub is_withdrawn: bool,
    pub is_cancelled: bool,
    pub secret_hash: String,
}

impl Clone for EscrowState {
    fn clone(&self) -> (r: Self)
        ensures
            r == *self,
    {
        EscrowState {
            immutables: self.immutables.clone(),
            is_withdrawn: self.is_withdrawn,
            is_cancelled: self.is_cancelled,
            secret_hash: self.secret_hash.clone(),
        }
    }
}

/// Where a leg stands in its life.
pub enum EscrowStatus {
    /// Funded and waiting.
    Active,
    /// Paid out to the taker.
    Withdrawn,
    /// Refunded to the maker.
    Cancelled,
}

impl EscrowState {
    /// At most one of the two terminal flags is set.
    pub open spec fn well_formed(&self) -> bool {
        !(self.is_withdrawn && self.is_cancelled)
    }

    /// The state's place in the life of a leg. A withdrawn flag wins over a
    /// cancelled one, as it does when an operation is rejected.
    pub open spec fn status(&self) -> EscrowStatus {
        if self.is_withdrawn {
            EscrowStatus::Withdrawn
        } else if self.is_cancelled {
            EscrowStatus::Cancelled
        } else {
            EscrowStatus::Active
        }
    }
}

/// A request to the ledger to move `amount` to `to`.
#[derive(Debug, PartialEq, Eq)]
pub struct Transfer {
    pub to: AccountId,
    pub amount: Balance,
}

} // verus!
