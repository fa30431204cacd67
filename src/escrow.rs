//! Escrow: the buyer deposits the price, then confirms delivery, which
//! releases the price to the seller.

use vstd::prelude::*;
use crate::machine::{check_guards, guard_verdict, ContractError, Effects, GuardViolation};
use crate::party::{ActorId, Balance, MessageContext, Transfer};

verus! {

/// Phases of an escrow, in the only order in which they are passed.
#[derive(Clone, Copy, Debug, PartialEq, Eq, Structural)]
pub enum EscrowState {
    AwaitingPayment,
    AwaitingDelivery,
    Complete,
}

impl Default for EscrowState {
    fn default() -> (r: EscrowState)
        ensures
            r == EscrowState::AwaitingPayment,
    {
        EscrowState::AwaitingPayment
    }
}

/// The mutating messages of an escrow.
#[derive(Clone, Copy, Debug, PartialEq, Eq, Structural)]
pub enum EscrowAction {
    Deposit,
    ConfirmDelivery,
}

/// The reply sent to the caller of a successful transition.
#[derive(Clone, Copy, Debug, PartialEq, Eq, Structural)]
pub enum EscrowEvent {
    Deposited,
    DeliveryConfirmed,
}

/// The read-only queries of an escrow.
#[derive(Clone, Copy, Debug, PartialEq, Eq, Structural)]
pub enum EscrowMetaState {
    CurrentState,
    Details,
}

/// The answer to an [`EscrowMetaState`] query.
#[derive(Clone, Copy, Debug, PartialEq, Eq)]
pub enum EscrowMetaStateReply {
    CurrentState(EscrowState),
    Details { state: EscrowState, buyer: ActorId, seller: ActorId, price: Balance },
}

/// The terms an escrow is created with.
#[derive(Clone, Copy, Debug)]
pub struct InitEscrow {
    pub price: Balance,
    pub buyer: ActorId,
    pub seller: ActorId,
}

/// A running escrow. Only [`init`] makes one.
#[derive(Debug)]
pub struct Escrow {
    state: EscrowState,
    buyer: ActorId,
    seller: ActorId,
    price: Balance,
}

/// What an escrow holds, as contracts see it.
pub struct EscrowModel {
    pub state: EscrowState,
    pub buyer: ActorId,
    pub seller: ActorId,
    pub price: Balance,
}

pub type EscrowResult = Result<Effects<EscrowEvent>, ContractError>;

impl View for Escrow {
    type V = EscrowModel;

    closed spec fn view(&self) -> EscrowModel {
        EscrowModel { state: self.state, buyer: self.buyer, seller: self.seller, price: self.price }
    }
}

/// Position of a phase in the order AwaitingPayment, AwaitingDelivery, Complete.
pub open spec fn phase_rank(s: EscrowState) -> nat {
    match s {
        EscrowState::AwaitingPayment => 0,
        EscrowState::AwaitingDelivery => 1,
        EscrowState::Complete => 2,
    }
}

/// The escrow that `init` builds from `config`.
pub open spec fn initial(config: InitEscrow) -> EscrowModel {
    EscrowModel {
        state: EscrowState::AwaitingPayment,
        buyer: config.buyer,
        seller: config.seller,
        price: config.price,
    }
}

/// `m` with only its phase replaced.
pub open spec fn with_state(m: EscrowModel, s: EscrowState) -> EscrowModel {
    EscrowModel { state: s, buyer: m.buyer, seller: m.seller, price: m.price }
}

/// Deposit: the buyer attaches exactly the price while payment is awaited.
pub open spec fn deposit_step(m: EscrowModel, ctx: MessageContext) -> (EscrowModel, EscrowResult) {
    match guard_verdict(ctx, m.buyer, Some(m.price), m.state == EscrowState::AwaitingPayment, None) {
        Some(v) => (m, Err(ContractError::Guard(v))),
        None => (
            with_state(m, EscrowState::AwaitingDelivery),
            Ok(Effects { reply: EscrowEvent::Deposited, transfer: None }),
        ),
    }
}

/// Delivery confirmation: the buyer, with any attached value, while delivery
/// is awaited; the price goes to the seller.
pub open spec fn confirm_delivery_step(m: EscrowModel, ctx: MessageContext) -> (EscrowModel, EscrowResult) {
    match guard_verdict(ctx, m.buyer, None, m.state == EscrowState::AwaitingDelivery, None) {
        Some(v) => (m, Err(ContractError::Guard(v))),
        None => (
            with_state(m, EscrowState::Complete),
            Ok(
                Effects {
                    reply: EscrowEvent::DeliveryConfirmed,
                    transfer: Some(Transfer { to: m.seller, value: m.price }),
                },
            ),
        ),
    }
}

/// The new escrow and the outcome of handling `action` sent with `ctx`.
pub open spec fn escrow_step(m: EscrowModel, ctx: MessageContext, action: EscrowAction) -> (EscrowModel, EscrowResult) {
    match action {
        EscrowAction::Deposit => deposit_step(m, ctx),
        EscrowAction::ConfirmDelivery => confirm_delivery_step(m, ctx),
    }
}

/// The answer to `query` on `m`.
pub open spec fn query_reply(m: EscrowModel, query: EscrowMetaState) -> EscrowMetaStateReply {
    match query {
        EscrowMetaState::CurrentState => EscrowMetaStateReply::CurrentState(m.state),
        EscrowMetaState::Details => EscrowMetaStateReply::Details {
            state: m.state,
            buyer: m.buyer,
            seller: m.seller,
            price: m.price,
        },
    }
}

impl Escrow {
    /// Takes the buyer's payment; no value moves yet.
    pub fn deposit(&mut self, ctx: &MessageContext) -> (r: EscrowResult)
        ensures
            (final(self)@, r) == deposit_step(old(self)@, *ctx),
    {
        let in_phase = self.state == EscrowState::AwaitingPayment;
        match check_guards(ctx, &self.buyer, Some(self.price), in_phase, None) {
            Err(v) => Err(ContractError::Guard(v)),
            Ok(()) => {
                self.state = EscrowState::AwaitingDelivery;
                Ok(Effects { reply: EscrowEvent::Deposited, transfer: None })
            },
        }
    }

    /// Records delivery and releases the price to the seller.
    pub fn confirm_delivery(&mut self, ctx: &MessageContext) -> (r: EscrowResult)
        ensures
            (final(self)@, r) == confirm_delivery_step(old(self)@, *ctx),
    {
        let in_phase = self.state == EscrowState::AwaitingDelivery;
        match check_guards(ctx, &self.buyer, None, in_phase, None) {
            Err(v) => Err(ContractError::Guard(v)),
            Ok(()) => {
                self.state = EscrowState::Complete;
                Ok(
                    Effects {
                        reply: EscrowEvent::DeliveryConfirmed,
                        transfer: Some(Transfer { to: self.seller, value: self.price }),
                    },
                )
            },
        }
    }
}

/// Creates an escrow awaiting payment under the given terms.
pub fn init(config: InitEscrow) -> (r: Escrow)
    ensures
        r@ == initial(config),
{
    Escrow {
        state: EscrowState::default(),
        buyer: config.buyer,
        seller: config.seller,
        price: config.price,
    }
}

/// Handles one mutating message.
pub fn handle(escrow: &mut Escrow, ctx: &MessageContext, action: EscrowAction) -> (r: EscrowResult)
    ensures
        (final(escrow)@, r) == escrow_step(old(escrow)@, *ctx, action),
{
    match action {
        EscrowAction::Deposit => escrow.deposit(ctx),
        EscrowAction::ConfirmDelivery => escrow.confirm_delivery(ctx),
    }
}

/// Answers a query without changing the escrow.
pub fn meta_state(escrow: &Escrow, query: EscrowMetaState) -> (r: EscrowMetaStateReply)
    ensures
        r == query_reply(escrow@, query),
{
    match query {
        EscrowMetaState::CurrentState => EscrowMetaStateReply::CurrentState(escrow.state),
        EscrowMetaState::Details => EscrowMetaStateReply::Details {
            state: escrow.state,
            buyer: escrow.buyer,
            seller: escrow.seller,
            price: escrow.price,
        },
    }
}

/// The escrow after handling each message of `msgs` in turn, failed ones
/// included.
pub open spec fn run(m: EscrowModel, msgs: Seq<(MessageContext, EscrowAction)>) -> EscrowModel
    decreases msgs.len(),
{
    if msgs.len() == 0 {
        m
    } else {
        run(escrow_step(m, msgs[0].0, msgs[0].1).0, msgs.drop_first())
    }
}

/// A message from anyone but the buyer is refused with `WrongCaller` and
/// changes nothing, whatever its value and whatever the phase.
pub proof fn lemma_wrong_caller_rejected(m: EscrowModel, ctx: MessageContext, action: EscrowAction)
    requires
        ctx.source@ != m.buyer@,
    ensures
        escrow_step(m, ctx, action) == (m, Err::<Effects<EscrowEvent>, ContractError>(
            ContractError::Guard(GuardViolation::WrongCaller),
        )),
{
}

/// A successful transition moves the phase exactly one step forward; a failed
/// one changes nothing. Parties and price never change.
pub proof fn lemma_step_advances(m: EscrowModel, ctx: MessageContext, action: EscrowAction)
    ensures
        escrow_step(m, ctx, action).1 is Ok ==> phase_rank(escrow_step(m, ctx, action).0.state)
            == phase_rank(m.state) + 1,
        escrow_step(m, ctx, action).1 is Err ==> escrow_step(m, ctx, action).0 == m,
        escrow_step(m, ctx, action).0 == with_state(m, escrow_step(m, ctx, action).0.state),
{
}

/// Sending again a message that failed, to the unchanged escrow, fails with
/// the same error and again changes nothing.
pub proof fn lemma_rejection_idempotent(m: EscrowModel, ctx: MessageContext, action: EscrowAction)
    requires
        (escrow_step(m, ctx, action).1 is Err),
    ensures
        escrow_step(m, ctx, action).0 == m,
        escrow_step(escrow_step(m, ctx, action).0, ctx, action) == escrow_step(m, ctx, action),
{
}

/// A deposit of the price by the buyer, then a confirmation by the buyer,
/// completes the escrow and sends exactly the price to the seller.
pub proof fn lemma_deposit_then_confirm(m: EscrowModel, pay: MessageContext, confirm: MessageContext)
    requires
        m.state == EscrowState::AwaitingPayment,
        pay.source@ == m.buyer@,
        pay.value == m.price,
        confirm.source@ == m.buyer@,
    ensures
        deposit_step(m, pay) == (with_state(m, EscrowState::AwaitingDelivery), Ok::<
            Effects<EscrowEvent>,
            ContractError,
        >(Effects { reply: EscrowEvent::Deposited, transfer: None })),
        confirm_delivery_step(deposit_step(m, pay).0, confirm) == (with_state(m, EscrowState::Complete), Ok::<
            Effects<EscrowEvent>,
            ContractError,
        >(
            Effects {
                reply: EscrowEvent::DeliveryConfirmed,
                transfer: Some(Transfer { to: m.seller, value: m.price }),
            },
        )),
{
}

/// A deposit by the buyer with any value other than the price is refused
/// with `WrongValue`.
pub proof fn lemma_deposit_wrong_value(m: EscrowModel, ctx: MessageContext)
    requires
        ctx.source@ == m.buyer@,
        ctx.value != m.price,
    ensures
        deposit_step(m, ctx) == (m, Err::<Effects<EscrowEvent>, ContractError>(
            ContractError::Guard(GuardViolation::WrongValue),
        )),
{
}

proof fn lemma_run_keeps_terms(m: EscrowModel, msgs: Seq<(MessageContext, EscrowAction)>)
    ensures
        run(m, msgs) == with_state(m, run(m, msgs).state),
    decreases msgs.len(),
{
    if msgs.len() > 0 {
        lemma_run_keeps_terms(escrow_step(m, msgs[0].0, msgs[0].1).0, msgs.drop_first());
    }
}

/// After any sequence of messages, `Details` reports the terms given at
/// creation together with the current phase.
pub proof fn lemma_details_after_run(config: InitEscrow, msgs: Seq<(MessageContext, EscrowAction)>)
    ensures
        query_reply(run(initial(config), msgs), EscrowMetaState::Details) == (EscrowMetaStateReply::Details {
            state: run(initial(config), msgs).state,
            buyer: config.buyer,
            seller: config.seller,
            price: config.price,
        }),
{
    lemma_run_keeps_terms(initial(config), msgs);
}

} // verus!
