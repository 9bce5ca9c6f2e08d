//! Atomic cross-chain swap escrows: a per-leg escrow state machine guarded by
//! time locks and a secret, a factory that registers legs under fresh
//! identifiers, and a resolver that lets a single owner drive the protocol.
//!
//! The library never talks to a ledger itself. Every operation takes the
//! caller's identity and the current time as plain values and hands back the
//! instruction (a transfer, a call to another contract) that the host has to
//! carry out.

pub mod account;
pub mod types;
pub mod escrow;
pub mod escrow_factory;
pub mod resolver;
pub mod swap;

pub use account::AccountId;
pub use escrow::Escrow;
pub use escrow_factory::{Deployment, EscrowFactory};
pub use resolver::{Resolver, ResolverCall};
pub use swap::CrossChainSwap;
pub use types::{
    Balance, CrossChainOrder, EscrowError, EscrowId, EscrowImmutables, EscrowState, EscrowStatus,
    TimeLocks, Timestamp, Transfer,
};

