//! The resolver: the one place where the owner's calls into the factory and
//! into the legs are authorised.

use vstd::prelude::*;
use crate::account::AccountId;
use crate::types::{Balance, CrossChainOrder, EscrowError, EscrowImmutables, TimeLocks};

verus! {

/// A call that the resolver asks the host to make on its behalf.
#[derive(Debug, PartialEq, Eq)]
pub enum ResolverCall {
    /// Ask `factory` to create a source leg.
    CreateSrcEscrow {
        factory: AccountId,
        order: CrossChainOrder,
        time_locks: TimeLocks,
        taker: AccountId,
        amount: Balance,
        secret_hash: String,
    },
    /// Ask `factory` to create a destination leg.
    CreateDstEscrow { factory: AccountId, immutables: EscrowImmutables },
    /// Ask the leg at `escrow` to pay out against `secret`.
    Withdraw { escrow: AccountId, secret: String },
    /// Ask the leg at `escrow` to refund its maker.
    Cancel { escrow: AccountId },
}

/// The owner's front door to one factory and its legs.
#[derive(Debug, PartialEq, Eq)]
pub struct Resolver {
    pub owner_id: AccountId,
    pub escrow_factory_id: AccountId,
    pub src_chain_id: u64,
    pub dst_chain_id: u64,
}

/// The chain on which source legs live unless configured otherwise.
pub const DEFAULT_SRC_CHAIN_ID: u64 = 1;

/// The chain on which destination legs live unless configured otherwise.
pub const DEFAULT_DST_CHAIN_ID: u64 = 1313161554;

impl Resolver {
    /// Whether `caller` may drive the protocol.
    pub open spec fn authorizes(&self, caller: AccountId) -> bool {
        caller@ == self.owner_id@
    }

    /// What the resolver answers when `caller` asks for `call`: the call
    /// itself for the owner, `Unauthorized` for anyone else.
    pub open spec fn answer(&self, caller: AccountId, call: ResolverCall) -> Result<
        ResolverCall,
        EscrowError,
    > {
        if self.authorizes(caller) {
            Ok(call)
        } else {
            Err(EscrowError::Unauthorized)
        }
    }

    /// A resolver for `owner_id` in front of the factory at
    /// `escrow_factory_id`, on the default pair of chains.
    pub fn new(owner_id: AccountId, escrow_factory_id: AccountId) -> (resolver: Self)
        ensures
            resolver == (Resolver {
                owner_id,
                escrow_factory_id,
                src_chain_id: DEFAULT_SRC_CHAIN_ID,
                dst_chain_id: DEFAULT_DST_CHAIN_ID,
            }),
    {
        Resolver {
            owner_id,
            escrow_factory_id,
            src_chain_id: DEFAULT_SRC_CHAIN_ID,
            dst_chain_id: DEFAULT_DST_CHAIN_ID,
        }
    }

    /// For the owner, the call that creates a source leg at the factory.
    pub fn deploy_src(
        &mut self,
        caller: &AccountId,
        order: CrossChainOrder,
        time_locks: TimeLocks,
        taker: AccountId,
        amount: Balance,
        secret_hash: String,
    ) -> (r: Result<ResolverCall, EscrowError>)
        ensures
            *final(self) == *old(self),
            r == old(self).answer(
                *caller,
                ResolverCall::CreateSrcEscrow {
                    factory: old(self).escrow_factory_id,
                    order,
                    time_locks,
                    taker,
                    amount,
                    secret_hash,
                },
            ),
    {
        if !caller.same_as(&self.owner_id) {
            return Err(EscrowError::Unauthorized);
        }
        Ok(
            ResolverCall::CreateSrcEscrow {
                factory: self.escrow_factory_id.clone(),
                order,
                time_locks,
                taker,
                amount,
                secret_hash,
            },
        )
    }

    /// For the owner, the call that creates a destination leg at the
    /// factory.
    pub fn deploy_dst(&mut self, caller: &AccountId, immutables: EscrowImmutables) -> (r: Result<
        ResolverCall,
        EscrowError,
    >)
        ensures
            *final(self) == *old(self),
            r == old(self).answer(
                *caller,
                ResolverCall::CreateDstEscrow {
                    factory: old(self).escrow_factory_id,
                    immutables,
                },
            ),
    {
        if !caller.same_as(&self.owner_id) {
            return Err(EscrowError::Unauthorized);
        }
        Ok(ResolverCall::CreateDstEscrow { factory: self.escrow_factory_id.clone(), immutables })
    }

    /// For the owner, the call that withdraws from the leg at `escrow_id`.
    pub fn withdraw(&mut self, caller: &AccountId, escrow_id: AccountId, secret: String) -> (r:
        Result<ResolverCall, EscrowError>)
        ensures
            *final(self) == *old(self),
            r == old(self).answer(*caller, ResolverCall::Withdraw { escrow: escrow_id, secret }),
    {
        if !caller.same_as(&self.owner_id) {
            return Err(EscrowError::Unauthorized);
        }
        Ok(ResolverCall::Withdraw { escrow: escrow_id, secret })
    }

    /// For the owner, the call that cancels the leg at `escrow_id`.
    pub fn cancel(&mut self, caller: &AccountId, escrow_id: AccountId) -> (r: Result<
        ResolverCall,
        EscrowError,
    >)
        ensures
            *final(self) == *old(self),
            r == old(self).answer(*caller, ResolverCall::Cancel { escrow: escrow_id }),
    {
        if !caller.same_as(&self.owner_id) {
            return Err(EscrowError::Unauthorized);
        }
        Ok(ResolverCall::Cancel { escrow: escrow_id })
    }

    /// The owner.
    pub fn get_owner(&self) -> (owner: AccountId)
        ensures
            owner == self.owner_id,
    {
        self.owner_id.clone()
    }

    /// The account of the factory that the resolver stands in front of.
    pub fn get_escrow_factory(&self) -> (factory: AccountId)
        ensures
            factory == self.escrow_factory_id,
    {
        self.escrow_factory_id.clone()
    }
}

} // verus!
