//! A fixed-supply token ledger modelled as a sequential state machine.
//!
//! Every operation takes the records it works on, the identity of the caller
//! and the current time as plain values, checks its preconditions, updates the
//! records and returns the value movement that the host has to carry out.
//! Nothing here moves funds or reads a clock.

pub mod error;
pub mod governance;
pub mod identity;
pub mod instruction;
pub mod lock;
pub mod registry;
pub mod revenue;
pub mod sale;

pub use error::CustomError;
pub use governance::{
    check_description, create_proposal, vote_on_proposal, Proposal, MAX_VOTERS, VOTING_PERIOD,
};
pub use identity::Identity;
pub use instruction::{MintTo, Transfer};
pub use lock::{check_lock, lock_tokens, unlock_tokens, LockAccount, LOCK_PERIOD};
pub use registry::{check_initialize, initialize, TokenDetails};
pub use revenue::{check_distribution, distribute_revenue, distribute_to_holder, Holder, Payout};
pub use sale::{initial_sale, second_sale};
