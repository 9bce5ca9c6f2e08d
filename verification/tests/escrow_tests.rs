use cross_chain_swap::{
    AccountId, CrossChainOrder, Escrow, EscrowError, EscrowImmutables, TimeLocks, Transfer,
};

fn account(name: &str) -> AccountId {
    AccountId::parse(name).unwrap()
}

fn order() -> CrossChainOrder {
    CrossChainOrder {
        maker: account("maker.near"),
        making_amount: 100,
        taking_amount: 95,
        maker_asset: account("wrap.near"),
        taker_asset: account("usdc.near"),
        salt: 7,
        nonce: 1,
        src_chain_id: 1,
        dst_chain_id: 1313161554,
        src_safety_deposit: 0,
        dst_safety_deposit: 0,
        allow_partial_fills: false,
        allow_multiple_fills: false,
    }
}

fn time_locks() -> TimeLocks {
    TimeLocks {
        src_withdrawal: 3600,
        src_public_withdrawal: 5400,
        src_cancellation: 7200,
        src_public_cancellation: 9000,
        dst_withdrawal: 1800,
        dst_public_withdrawal: 2700,
        dst_cancellation: 3600,
    }
}

fn terms() -> EscrowImmutables {
    EscrowImmutables::new(order(), time_locks(), account("taker.near"), 100)
}

const DEPLOYED_AT: u64 = 1_000_000;

fn leg() -> Escrow {
    Escrow::new(terms(), DEPLOYED_AT)
}

#[test]
fn new_terms_are_not_deployed() {
    let t = terms();
    assert_eq!(t.deployed_at, 0);
    assert_eq!(t.amount, 100);
    assert_eq!(t.taker, account("taker.near"));
    assert_eq!(t.order, order());
    assert_eq!(t.time_locks, time_locks());
}

#[test]
fn with_deployed_at_changes_only_the_time() {
    let t = terms().with_deployed_at(42);
    assert_eq!(t.deployed_at, 42);
    assert_eq!(t.amount, 100);
    assert_eq!(t.order, order());
    assert_eq!(t.time_locks, time_locks());
    assert_eq!(t.taker, account("taker.near"));
}

#[test]
fn time_locks_in_order_are_well_formed() {
    assert!(time_locks().is_well_formed());
    let flat = TimeLocks {
        src_withdrawal: 5,
        src_public_withdrawal: 5,
        src_cancellation: 5,
        src_public_cancellation: 5,
        dst_withdrawal: 0,
        dst_public_withdrawal: 0,
        dst_cancellation: 0,
    };
    assert!(flat.is_well_formed());
}

#[test]
fn time_locks_out_of_order_are_not_well_formed() {
    let mut t = time_locks();
    t.src_withdrawal = 5401;
    assert!(!t.is_well_formed());
    let mut t = time_locks();
    t.src_cancellation = 5399;
    assert!(!t.is_well_formed());
    let mut t = time_locks();
    t.src_public_cancellation = 7199;
    assert!(!t.is_well_formed());
    let mut t = time_locks();
    t.dst_withdrawal = 2701;
    assert!(!t.is_well_formed());
    let mut t = time_locks();
    t.dst_cancellation = 2699;
    assert!(!t.is_well_formed());
}

#[test]
fn new_leg_is_active_and_stamped() {
    let leg = leg();
    let state = leg.get_state();
    assert!(!state.is_withdrawn);
    assert!(!state.is_cancelled);
    assert_eq!(state.secret_hash, "");
    assert_eq!(state.immutables.deployed_at, DEPLOYED_AT);
    assert_eq!(state.immutables.amount, 100);
    assert_eq!(leg.get_immutables(), terms().with_deployed_at(DEPLOYED_AT));
}

#[test]
fn new_leg_keeps_a_deployment_time_that_is_set() {
    let leg = Escrow::new(terms().with_deployed_at(77), DEPLOYED_AT);
    assert_eq!(leg.get_immutables().deployed_at, 77);
}

#[test]
fn withdraw_waits_for_the_window_then_pays_once() {
    let mut leg = leg();
    assert_eq!(
        leg.withdraw("s".to_string(), "any".to_string(), DEPLOYED_AT + 1000),
        Err(EscrowError::TimelockNotElapsed)
    );
    assert!(!leg.get_state().is_withdrawn);
    assert_eq!(
        leg.withdraw("s".to_string(), "any".to_string(), DEPLOYED_AT + 3700),
        Ok(Transfer { to: account("taker.near"), amount: 100 })
    );
    let state = leg.get_state();
    assert!(state.is_withdrawn);
    assert!(!state.is_cancelled);
    assert_eq!(
        leg.withdraw("s".to_string(), "any".to_string(), DEPLOYED_AT + 3800),
        Err(EscrowError::AlreadyWithdrawn)
    );
}

#[test]
fn cancel_after_the_window_refunds_once() {
    let mut leg = leg();
    assert_eq!(
        leg.cancel(DEPLOYED_AT + 7300),
        Ok(Transfer { to: account("maker.near"), amount: 100 })
    );
    let state = leg.get_state();
    assert!(state.is_cancelled);
    assert!(!state.is_withdrawn);
    assert_eq!(leg.withdraw("s".to_string(), "any".to_string(), 0), Err(EscrowError::AlreadyCancelled));
    assert_eq!(
        leg.withdraw("s".to_string(), "any".to_string(), DEPLOYED_AT + 3700),
        Err(EscrowError::AlreadyCancelled)
    );
    assert_eq!(leg.withdraw("s".to_string(), "any".to_string(), u64::MAX), Err(EscrowError::AlreadyCancelled));
    assert_eq!(leg.cancel(u64::MAX), Err(EscrowError::AlreadyCancelled));
}

#[test]
fn withdraw_window_opens_exactly_at_the_offset() {
    let mut leg = leg();
    assert_eq!(
        leg.withdraw("s".to_string(), "any".to_string(), DEPLOYED_AT + 3599),
        Err(EscrowError::TimelockNotElapsed)
    );
    assert!(leg.withdraw("s".to_string(), "any".to_string(), DEPLOYED_AT + 3600).is_ok());
}

#[test]
fn cancel_window_opens_exactly_at_the_offset() {
    let mut leg = leg();
    assert_eq!(leg.cancel(DEPLOYED_AT + 7199), Err(EscrowError::TimelockNotElapsed));
    assert_eq!(leg.get_state(), Escrow::new(terms(), DEPLOYED_AT).get_state());
    assert!(leg.cancel(DEPLOYED_AT + 7200).is_ok());
}

#[test]
fn empty_secret_is_invalid() {
    let mut leg = leg();
    assert_eq!(leg.withdraw(String::new(), "any".to_string(), DEPLOYED_AT + 3700), Err(EscrowError::InvalidSecret));
    assert!(!leg.get_state().is_withdrawn);
    assert!(leg.withdraw("secret".to_string(), "any".to_string(), DEPLOYED_AT + 3700).is_ok());
}

#[test]
fn time_lock_is_tested_before_the_secret() {
    let mut leg = leg();
    assert_eq!(leg.withdraw(String::new(), "any".to_string(), DEPLOYED_AT), Err(EscrowError::TimelockNotElapsed));
}

#[test]
fn withdrawn_leg_rejects_cancel() {
    let mut leg = leg();
    assert!(leg.withdraw("s".to_string(), "any".to_string(), DEPLOYED_AT + 3600).is_ok());
    let before = leg.get_state();
    assert_eq!(leg.cancel(DEPLOYED_AT + 7300), Err(EscrowError::AlreadyWithdrawn));
    assert_eq!(leg.cancel(0), Err(EscrowError::AlreadyWithdrawn));
    assert_eq!(leg.withdraw(String::new(), "any".to_string(), 0), Err(EscrowError::AlreadyWithdrawn));
    assert_eq!(leg.get_state(), before);
}

#[test]
fn window_beyond_the_clock_never_opens() {
    let mut leg = Escrow::new(terms().with_deployed_at(u64::MAX - 10), 0);
    assert_eq!(leg.withdraw("s".to_string(), "any".to_string(), u64::MAX), Err(EscrowError::TimelockNotElapsed));
    assert_eq!(leg.cancel(u64::MAX), Err(EscrowError::TimelockNotElapsed));
}

#[test]
fn window_that_ends_on_the_last_tick_opens_there() {
    let mut leg = Escrow::new(terms().with_deployed_at(u64::MAX - 3600), 0);
    assert_eq!(
        leg.withdraw("s".to_string(), "any".to_string(), u64::MAX - 1),
        Err(EscrowError::TimelockNotElapsed)
    );
    assert!(leg.withdraw("s".to_string(), "any".to_string(), u64::MAX).is_ok());
}

fn bound_leg() -> Escrow {
    Escrow::with_secret_hash(terms(), "2bb80d53".to_string(), DEPLOYED_AT)
}

#[test]
fn bound_leg_stores_its_hash() {
    let leg = bound_leg();
    let state = leg.get_state();
    assert_eq!(state.secret_hash, "2bb80d53");
    assert!(!state.is_withdrawn);
    assert!(!state.is_cancelled);
    assert_eq!(state.immutables, terms().with_deployed_at(DEPLOYED_AT));
}

#[test]
fn bound_leg_rejects_a_secret_with_another_hash() {
    let mut leg = bound_leg();
    let before = leg.get_state();
    assert_eq!(
        leg.withdraw("s".to_string(), "ffffffff".to_string(), DEPLOYED_AT + 3700),
        Err(EscrowError::InvalidSecret)
    );
    assert_eq!(
        leg.withdraw("s".to_string(), String::new(), DEPLOYED_AT + 3700),
        Err(EscrowError::InvalidSecret)
    );
    assert_eq!(leg.get_state(), before);
}

#[test]
fn bound_leg_pays_out_against_the_matching_hash() {
    let mut leg = bound_leg();
    assert_eq!(
        leg.withdraw("s".to_string(), "2bb80d53".to_string(), DEPLOYED_AT + 3700),
        Ok(Transfer { to: account("taker.near"), amount: 100 })
    );
    assert!(leg.get_state().is_withdrawn);
}

#[test]
fn bound_leg_rejects_an_empty_secret_even_with_the_matching_hash() {
    let mut leg = bound_leg();
    assert_eq!(
        leg.withdraw(String::new(), "2bb80d53".to_string(), DEPLOYED_AT + 3700),
        Err(EscrowError::InvalidSecret)
    );
    assert!(!leg.get_state().is_withdrawn);
}

#[test]
fn bound_leg_tests_the_time_lock_before_the_hash() {
    let mut leg = bound_leg();
    assert_eq!(
        leg.withdraw("s".to_string(), "ffffffff".to_string(), DEPLOYED_AT + 10),
        Err(EscrowError::TimelockNotElapsed)
    );
}

#[test]
fn legs_that_differ_in_the_hash_do_not_open_to_the_same_digest() {
    let mut first = Escrow::with_secret_hash(terms(), "aaaa".to_string(), DEPLOYED_AT);
    let mut second = Escrow::with_secret_hash(terms(), "bbbb".to_string(), DEPLOYED_AT);
    let at = DEPLOYED_AT + 3700;
    assert!(first.withdraw("s".to_string(), "aaaa".to_string(), at).is_ok());
    assert_eq!(
        second.withdraw("s".to_string(), "aaaa".to_string(), at),
        Err(EscrowError::InvalidSecret)
    );
}

#[test]
fn bound_leg_can_still_be_cancelled() {
    let mut leg = bound_leg();
    assert_eq!(
        leg.cancel(DEPLOYED_AT + 7200),
        Ok(Transfer { to: account("maker.near"), amount: 100 })
    );
}
