use vstd::prelude::*;
use crate::party::{ActorId, Balance, MessageContext, Transfer};

verus! {

/// Why a guard refused a message.
#[derive(Clone, Copy, Debug, PartialEq, Eq, Structural)]
pub enum GuardViolation {
    /// The sender is not the party that the transition requires.
    WrongCaller,
    /// The attached value differs from the required value.
    WrongValue,
    /// The contract is not in the phase that the transition starts from.
    WrongPhase,
    /// The time threshold of the transition has not been reached.
    TooEarly,
}

/// Why a contract operation failed. A failed operation changes nothing.
#[derive(Clone, Copy, Debug, PartialEq, Eq, Structural)]
pub enum ContractError {
    Guard(GuardViolation),
    /// A sum of terms or times does not fit its integer type.
    ArithmeticOverflow,
}

/// What a successful transition asks the environment to do: reply to the
/// sender, and move value to another account where `transfer` says so.
#[derive(Debug, PartialEq, Eq)]
pub struct Effects<E> {
    pub reply: E,
    pub transfer: Option<Transfer>,
}

/// The first guard that fails, in the fixed order: caller, attached value,
/// phase, time. `None` when all of them pass.
pub open spec fn guard_verdict(
    ctx: MessageContext,
    caller: ActorId,
    value: Option<Balance>,
    in_phase: bool,
    not_before: Option<u64>,
) -> Option<GuardViolation> {
    if ctx.source@ != caller@ {
        Some(GuardViolation::WrongCaller)
    } else if value is Some && ctx.value != value->0 {
        Some(GuardViolation::WrongValue)
    } else if !in_phase {
        Some(GuardViolation::WrongPhase)
    } else if not_before is Some && ctx.timestamp < not_before->0 {
        Some(GuardViolation::TooEarly)
    } else {
        None
    }
}

/// Checks the guards of a transition in order and reports the first that
/// fails. `value` and `not_before` are `None` where the transition has no such
/// guard.
pub fn check_guards(
    ctx: &MessageContext,
    caller: &ActorId,
    value: Option<Balance>,
    in_phase: bool,
    not_before: Option<u64>,
) -> (r: Result<(), GuardViolation>)
    ensures
        match guard_verdict(*ctx, *caller, value, in_phase, not_before) {
            Some(v) => r == Err::<(), GuardViolation>(v),
            None => r is Ok,
        },
{
    if !ctx.source.same_as(caller) {
        return Err(GuardViolation::WrongCaller);
    }
    if let Some(v) = value {
        if ctx.value != v {
            return Err(GuardViolation::WrongValue);
        }
    }
    if !in_phase {
        return Err(GuardViolation::WrongPhase);
    }
    if let Some(t) = not_before {
        if ctx.timestamp < t {
            return Err(GuardViolation::TooEarly);
        }
    }
    Ok(())
}

/// A message that has the wrong sender is refused with `WrongCaller`, even
/// when its attached value and the current phase are wrong as well.
pub proof fn lemma_caller_guard_first(
    ctx: MessageContext,
    caller: ActorId,
    value: Option<Balance>,
    in_phase: bool,
    not_before: Option<u64>,
)
    requires
        ctx.source@ != caller@,
        value is Some && ctx.value != value->0,
        !in_phase,
    ensures
        guard_verdict(ctx, caller, value, in_phase, not_before) == Some(GuardViolation::WrongCaller),
{
}

} // verus!
