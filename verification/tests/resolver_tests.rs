use cross_chain_swap::{
    AccountId, CrossChainOrder, CrossChainSwap, EscrowError, EscrowImmutables, Resolver,
    ResolverCall, TimeLocks,
};

fn id(name: &str) -> AccountId {
    AccountId::parse(name).unwrap()
}

fn sample_order() -> CrossChainOrder {
    CrossChainOrder {
        maker: id("maker.near"),
        making_amount: 100,
        taking_amount: 95,
        maker_asset: id("wrap.near"),
        taker_asset: id("usdc.near"),
        salt: 7,
        nonce: 1,
        src_chain_id: 1,
        dst_chain_id: 1313161554,
        src_safety_deposit: 3,
        dst_safety_deposit: 4,
        allow_partial_fills: true,
        allow_multiple_fills: false,
    }
}

fn sample_locks() -> TimeLocks {
    TimeLocks {
        src_withdrawal: 1,
        src_public_withdrawal: 2,
        src_cancellation: 3,
        src_public_cancellation: 4,
        dst_withdrawal: 5,
        dst_public_withdrawal: 6,
        dst_cancellation: 7,
    }
}

fn resolver() -> Resolver {
    Resolver::new(id("owner.near"), id("factory.near"))
}

#[test]
fn new_resolver_uses_the_default_chains() {
    let r = resolver();
    assert_eq!(r.get_owner(), id("owner.near"));
    assert_eq!(r.get_escrow_factory(), id("factory.near"));
    assert_eq!(r.src_chain_id, 1);
    assert_eq!(r.dst_chain_id, 1313161554);
}

#[test]
fn owner_deploys_src_through_the_factory() {
    let mut r = resolver();
    let call = r.deploy_src(
        &id("owner.near"),
        sample_order(),
        sample_locks(),
        id("taker.near"),
        100,
        "h".to_string(),
    );
    assert_eq!(
        call,
        Ok(ResolverCall::CreateSrcEscrow {
            factory: id("factory.near"),
            order: sample_order(),
            time_locks: sample_locks(),
            taker: id("taker.near"),
            amount: 100,
            secret_hash: "h".to_string(),
        })
    );
    assert_eq!(r, resolver());
}

#[test]
fn owner_deploys_dst_through_the_factory() {
    let mut r = resolver();
    let terms = EscrowImmutables::new(sample_order(), sample_locks(), id("taker.near"), 9);
    let expected = EscrowImmutables::new(sample_order(), sample_locks(), id("taker.near"), 9);
    assert_eq!(
        r.deploy_dst(&id("owner.near"), terms),
        Ok(ResolverCall::CreateDstEscrow { factory: id("factory.near"), immutables: expected })
    );
}

#[test]
fn owner_withdraws_and_cancels_at_the_leg() {
    let mut r = resolver();
    assert_eq!(
        r.withdraw(&id("owner.near"), id("escrow_0.factory.near"), "s".to_string()),
        Ok(ResolverCall::Withdraw {
            escrow: id("escrow_0.factory.near"),
            secret: "s".to_string()
        })
    );
    assert_eq!(
        r.cancel(&id("owner.near"), id("escrow_0.factory.near")),
        Ok(ResolverCall::Cancel { escrow: id("escrow_0.factory.near") })
    );
}

#[test]
fn stranger_is_turned_away_by_the_resolver() {
    let mut r = resolver();
    let mallory = id("mallory.near");
    assert_eq!(
        r.deploy_src(
            &mallory,
            sample_order(),
            sample_locks(),
            id("taker.near"),
            100,
            "h".to_string()
        ),
        Err(EscrowError::Unauthorized)
    );
    let terms = EscrowImmutables::new(sample_order(), sample_locks(), id("taker.near"), 9);
    assert_eq!(r.deploy_dst(&mallory, terms), Err(EscrowError::Unauthorized));
    assert_eq!(
        r.withdraw(&mallory, id("escrow_0.factory.near"), "s".to_string()),
        Err(EscrowError::Unauthorized)
    );
    assert_eq!(r.cancel(&mallory, id("escrow_0.factory.near")), Err(EscrowError::Unauthorized));
    assert_eq!(r, resolver());
}

#[test]
fn swap_starts_with_one_owner_for_both_parts() {
    let swap = CrossChainSwap::new(id("owner.near"));
    assert_eq!(swap.escrow_factory.get_escrow_counter(), 0);
    assert!(swap.escrow_factory.escrows.is_empty());
    assert_eq!(swap.escrow_factory.owner_id, id("owner.near"));
    assert_eq!(swap.resolver, Resolver::new(id("owner.near"), id("owner.near")));
}
