//! A factory and its resolver under one owner.

use vstd::prelude::*;
use crate::account::AccountId;
use crate::escrow_factory::EscrowFactory;
use crate::resolver::Resolver;
use crate::types::{EscrowId, EscrowImmutables};

verus! {

/// A factory together with the resolver that drives it.
#[derive(Debug)]
pub struct CrossChainSwap {
    pub escrow_factory: EscrowFactory,
    pub resolver: Resolver,
}

impl CrossChainSwap {
    /// An empty factory and a resolver, both owned by `owner_id`; the
    /// factory is reached at the owner's own account.
    pub fn new(owner_id: AccountId) -> (swap: Self)
        ensures
            swap.escrow_factory.wf(),
            swap.escrow_factory.owner_id == owner_id,
            swap.escrow_factory.escrow_counter == 0,
            swap.escrow_factory.escrows@ == Map::<EscrowId, EscrowImmutables>::empty(),
            swap.resolver == (Resolver {
                owner_id,
                escrow_factory_id: owner_id,
                src_chain_id: crate::resolver::DEFAULT_SRC_CHAIN_ID,
                dst_chain_id: crate::resolver::DEFAULT_DST_CHAIN_ID,
            }),
    {
        let factory_owner = owner_id.clone();
        let factory_account = owner_id.clone();
        CrossChainSwap {
            escrow_factory: EscrowFactory::new(factory_owner),
            resolver: Resolver::new(owner_id, factory_account),
        }
    }
}

} // verus!
