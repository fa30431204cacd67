//! Guarded value-transfer state machines: an escrow between a buyer and a
//! seller, and a time-locked loan between a lender and a borrower.
//!
//! Each contract is an explicit instance built by its `init` function. The
//! hosting environment hands every message over as a [`MessageContext`]
//! (sender, attached value, current time) and carries out the returned
//! [`Effects`]: the reply to the sender and at most one outbound transfer.

mod party;
mod machine;
pub mod escrow;
pub mod loan;

pub use party::{ActorId, Balance, MessageContext, Transfer};
pub use machine::{check_guards, guard_verdict, lemma_caller_guard_first, ContractError, Effects, GuardViolation};
