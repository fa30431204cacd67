//! Time-locked loan: the lender funds the borrower, who may repay the amount
//! plus interest to the lender once the loan has matured.

use vstd::prelude::*;
use crate::machine::{check_guards, guard_verdict, ContractError, Effects, GuardViolation};
use crate::party::{ActorId, Balance, MessageContext, Transfer};

verus! {

/// Phases of a loan, in the only order in which they are passed.
#[derive(Clone, Copy, Debug, PartialEq, Eq, Structural)]
pub enum LoanState {
    Pending,
    Active,
    Closed,
}

impl Default for LoanState {
    fn default() -> (r: LoanState)
        ensures
            r == LoanState::Pending,
    {
        LoanState::Pending
    }
}

/// The mutating messages of a loan.
#[derive(Clone, Copy, Debug, PartialEq, Eq, Structural)]
pub enum LoanAction {
    Fund,
    Reimburse,
}

/// The reply sent to the caller of a successful transition.
#[derive(Clone, Copy, Debug, PartialEq, Eq, Structural)]
pub enum LoanEvent {
    Funded,
    Reimbursed,
}

/// The read-only queries of a loan.
#[derive(Clone, Copy, Debug, PartialEq, Eq, Structural)]
pub enum LoanMetaState {
    CurrentState,
    Details,
}

/// The answer to a [`LoanMetaState`] query. `maturity` is `None` until the
/// loan is funded.
#[derive(Clone, Copy, Debug, PartialEq, Eq)]
pub enum LoanMetaStateReply {
    CurrentState(LoanState),
    Details {
        state: LoanState,
        lender: ActorId,
        borrower: ActorId,
        amount: Balance,
        interest: Balance,
        duration: u64,
        maturity: Option<u64>,
    },
}

/// The terms a loan is created with.
#[derive(Clone, Copy, Debug)]
pub struct InitLoan {
    pub amount: Balance,
    pub interest: Balance,
    pub lender: ActorId,
    pub borrower: ActorId,
    pub duration: u64,
}

/// A running loan. Only [`init`] makes one.
#[derive(Debug)]
pub struct Loan {
    state: LoanState,
    borrower: ActorId,
    lender: ActorId,
    duration: u64,
    maturity: Option<u64>,
    amount: Balance,
    interest: Balance,
}

/// What a loan holds, as contracts see it.
pub struct LoanModel {
    pub state: LoanState,
    pub lender: ActorId,
    pub borrower: ActorId,
    pub amount: Balance,
    pub interest: Balance,
    pub duration: u64,
    pub maturity: Option<u64>,
}

pub type LoanResult = Result<Effects<LoanEvent>, ContractError>;

impl View for Loan {
    type V = LoanModel;

    closed spec fn view(&self) -> LoanModel {
        LoanModel {
            state: self.state,
            lender: self.lender,
            borrower: self.borrower,
            amount: self.amount,
            interest: self.interest,
            duration: self.duration,
            maturity: self.maturity,
        }
    }
}

/// A loan is valid when its repayment fits a `Balance` and it has a maturity
/// exactly once it has left `Pending`.
pub open spec fn wf(m: LoanModel) -> bool {
    &&& m.amount + m.interest <= Balance::MAX
    &&& (m.state == LoanState::Pending <==> m.maturity is None)
}

/// What the borrower owes: the amount plus the interest.
pub open spec fn repayment(m: LoanModel) -> Balance {
    (m.amount + m.interest) as Balance
}

/// Position of a phase in the order Pending, Active, Closed.
pub open spec fn phase_rank(s: LoanState) -> nat {
    match s {
        LoanState::Pending => 0,
        LoanState::Active => 1,
        LoanState::Closed => 2,
    }
}

/// The loan that `init` builds from `config`.
pub open spec fn initial(config: InitLoan) -> LoanModel {
    LoanModel {
        state: LoanState::Pending,
        lender: config.lender,
        borrower: config.borrower,
        amount: config.amount,
        interest: config.interest,
        duration: config.duration,
        maturity: None,
    }
}

/// `m` with only its phase and maturity replaced.
pub open spec fn with_phase(m: LoanModel, s: LoanState, maturity: Option<u64>) -> LoanModel {
    LoanModel {
        state: s,
        lender: m.lender,
        borrower: m.borrower,
        amount: m.amount,
        interest: m.interest,
        duration: m.duration,
        maturity,
    }
}

/// Funding: the lender attaches exactly the amount while the loan is pending;
/// the amount goes to the borrower and the loan matures `duration` after now.
pub open spec fn fund_step(m: LoanModel, ctx: MessageContext) -> (LoanModel, LoanResult) {
    match guard_verdict(ctx, m.lender, Some(m.amount), m.state == LoanState::Pending, None) {
        Some(v) => (m, Err(ContractError::Guard(v))),
        None => if ctx.timestamp + m.duration > u64::MAX {
            (m, Err(ContractError::ArithmeticOverflow))
        } else {
            (
                with_phase(m, LoanState::Active, Some((ctx.timestamp + m.duration) as u64)),
                Ok(
                    Effects {
                        reply: LoanEvent::Funded,
                        transfer: Some(Transfer { to: m.borrower, value: m.amount }),
                    },
                ),
            )
        },
    }
}

/// Reimbursement: the borrower attaches exactly the repayment while the loan
/// is active and has matured; the repayment goes to the lender.
pub open spec fn reimburse_step(m: LoanModel, ctx: MessageContext) -> (LoanModel, LoanResult) {
    match guard_verdict(ctx, m.borrower, Some(repayment(m)), m.state == LoanState::Active, m.maturity) {
        Some(v) => (m, Err(ContractError::Guard(v))),
        None => (
            with_phase(m, LoanState::Closed, m.maturity),
            Ok(
                Effects {
                    reply: LoanEvent::Reimbursed,
                    transfer: Some(Transfer { to: m.lender, value: repayment(m) }),
                },
            ),
        ),
    }
}

/// The new loan and the outcome of handling `action` sent with `ctx`.
pub open spec fn loan_step(m: LoanModel, ctx: MessageContext, action: LoanAction) -> (LoanModel, LoanResult) {
    match action {
        LoanAction::Fund => fund_step(m, ctx),
        LoanAction::Reimburse => reimburse_step(m, ctx),
    }
}

/// The answer to `query` on `m`.
pub open spec fn query_reply(m: LoanModel, query: LoanMetaState) -> LoanMetaStateReply {
    match query {
        LoanMetaState::CurrentState => LoanMetaStateReply::CurrentState(m.state),
        LoanMetaState::Details => LoanMetaStateReply::Details {
            state: m.state,
            lender: m.lender,
            borrower: m.borrower,
            amount: m.amount,
            interest: m.interest,
            duration: m.duration,
            maturity: m.maturity,
        },
    }
}

impl Loan {
    #[verifier::type_invariant]
    spec fn inv(&self) -> bool {
        wf(self@)
    }

    /// Takes the lender's funds, forwards them to the borrower and fixes the
    /// maturity.
    pub fn fund(&mut self, ctx: &MessageContext) -> (r: LoanResult)
        ensures
            (final(self)@, r) == fund_step(old(self)@, *ctx),
    {
        proof {
            use_type_invariant(&*self);
        }
        let in_phase = self.state == LoanState::Pending;
        match check_guards(ctx, &self.lender, Some(self.amount), in_phase, None) {
            Err(v) => Err(ContractError::Guard(v)),
            Ok(()) => match ctx.timestamp.checked_add(self.duration) {
                None => Err(ContractError::ArithmeticOverflow),
                Some(end) => {
                    *self = Loan {
                        state: LoanState::Active,
                        borrower: self.borrower,
                        lender: self.lender,
                        duration: self.duration,
                        maturity: Some(end),
                        amount: self.amount,
                        interest: self.interest,
                    };
                    Ok(
                        Effects {
                            reply: LoanEvent::Funded,
                            transfer: Some(Transfer { to: self.borrower, value: ctx.value }),
                        },
                    )
                },
            },
        }
    }

    /// Takes the borrower's repayment once the loan has matured and forwards
    /// it to the lender.
    pub fn reimburse(&mut self, ctx: &MessageContext) -> (r: LoanResult)
        ensures
            (final(self)@, r) == reimburse_step(old(self)@, *ctx),
    {
        proof {
            use_type_invariant(&*self);
        }
        let due = self.amount + self.interest;
        let in_phase = self.state == LoanState::Active;
        match check_guards(ctx, &self.borrower, Some(due), in_phase, self.maturity) {
            Err(v) => Err(ContractError::Guard(v)),
            Ok(()) => {
                self.state = LoanState::Closed;
                Ok(
                    Effects {
                        reply: LoanEvent::Reimbursed,
                        transfer: Some(Transfer { to: self.lender, value: ctx.value }),
                    },
                )
            },
        }
    }
}

/// Creates a pending loan under the given terms. Terms whose repayment,
/// `amount + interest`, does not fit a `Balance` are refused.
pub fn init(config: InitLoan) -> (r: Result<Loan, ContractError>)
    ensures
        r is Ok <==> config.amount + config.interest <= Balance::MAX,
        r matches Ok(l) ==> l@ == initial(config) && wf(l@),
        r matches Err(e) ==> e == ContractError::ArithmeticOverflow,
{
    match config.amount.checked_add(config.interest) {
        None => Err(ContractError::ArithmeticOverflow),
        Some(_) => Ok(
            Loan {
                state: LoanState::default(),
                borrower: config.borrower,
                lender: config.lender,
                duration: config.duration,
                maturity: None,
                amount: config.amount,
                interest: config.interest,
            },
        ),
    }
}

/// Handles one mutating message.
pub fn handle(loan: &mut Loan, ctx: &MessageContext, action: LoanAction) -> (r: LoanResult)
    ensures
        (final(loan)@, r) == loan_step(old(loan)@, *ctx, action),
{
    match action {
        LoanAction::Fund => loan.fund(ctx),
        LoanAction::Reimburse => loan.reimburse(ctx),
    }
}

/// Answers a query without changing the loan.
pub fn meta_state(loan: &Loan, query: LoanMetaState) -> (r: LoanMetaStateReply)
    ensures
        r == query_reply(loan@, query),
{
    match query {
        LoanMetaState::CurrentState => LoanMetaStateReply::CurrentState(loan.state),
        LoanMetaState::Details => LoanMetaStateReply::Details {
            state: loan.state,
            lender: loan.lender,
            borrower: loan.borrower,
            amount: loan.amount,
            interest: loan.interest,
            duration: loan.duration,
            maturity: loan.maturity,
        },
    }
}

/// The loan after handling each message of `msgs` in turn, failed ones
/// included.
pub open spec fn run(m: LoanModel, msgs: Seq<(MessageContext, LoanAction)>) -> LoanModel
    decreases msgs.len(),
{
    if msgs.len() == 0 {
        m
    } else {
        run(loan_step(m, msgs[0].0, msgs[0].1).0, msgs.drop_first())
    }
}

/// The party that `action` must come from.
pub open spec fn required_caller(m: LoanModel, action: LoanAction) -> ActorId {
    match action {
        LoanAction::Fund => m.lender,
        LoanAction::Reimburse => m.borrower,
    }
}

/// `m` and `n` have the same parties and terms.
pub open spec fn same_terms(m: LoanModel, n: LoanModel) -> bool {
    n == with_phase(m, n.state, n.maturity)
}

/// A message from anyone but the party that its action requires is refused
/// with `WrongCaller` and changes nothing, whatever its value, its time and
/// the phase.
pub proof fn lemma_wrong_caller_rejected(m: LoanModel, ctx: MessageContext, action: LoanAction)
    requires
        ctx.source@ != required_caller(m, action)@,
    ensures
        loan_step(m, ctx, action) == (m, Err::<Effects<LoanEvent>, ContractError>(
            ContractError::Guard(GuardViolation::WrongCaller),
        )),
{
}

/// A successful transition moves the phase exactly one step forward; a failed
/// one changes nothing. Parties and terms never change, and a valid loan stays
/// valid.
pub proof fn lemma_step_advances(m: LoanModel, ctx: MessageContext, action: LoanAction)
    requires
        wf(m),
    ensures
        wf(loan_step(m, ctx, action).0),
        loan_step(m, ctx, action).1 is Ok ==> phase_rank(loan_step(m, ctx, action).0.state)
            == phase_rank(m.state) + 1,
        loan_step(m, ctx, action).1 is Err ==> loan_step(m, ctx, action).0 == m,
        same_terms(m, loan_step(m, ctx, action).0),
{
}

/// Sending again a message that failed, to the unchanged loan, fails with the
/// same error and again changes nothing.
pub proof fn lemma_rejection_idempotent(m: LoanModel, ctx: MessageContext, action: LoanAction)
    requires
        (loan_step(m, ctx, action).1 is Err),
    ensures
        loan_step(m, ctx, action).0 == m,
        loan_step(loan_step(m, ctx, action).0, ctx, action) == loan_step(m, ctx, action),
{
}

/// Funding by the lender with the amount at time `t0` makes the loan active
/// with maturity `t0 + duration` and sends the amount to the borrower. A
/// repayment of `amount + interest` by the borrower is then refused with
/// `TooEarly` before maturity; at or after maturity it closes the loan and
/// sends exactly `amount + interest` to the lender.
pub proof fn lemma_fund_then_reimburse(m: LoanModel, fund: MessageContext, repay: MessageContext)
    requires
        wf(m),
        m.state == LoanState::Pending,
        fund.source@ == m.lender@,
        fund.value == m.amount,
        fund.timestamp + m.duration <= u64::MAX,
        repay.source@ == m.borrower@,
        repay.value == m.amount + m.interest,
    ensures
        fund_step(m, fund) == (with_phase(
            m,
            LoanState::Active,
            Some((fund.timestamp + m.duration) as u64),
        ), Ok::<Effects<LoanEvent>, ContractError>(
            Effects { reply: LoanEvent::Funded, transfer: Some(Transfer { to: m.borrower, value: m.amount }) },
        )),
        repay.timestamp < fund.timestamp + m.duration ==> reimburse_step(fund_step(m, fund).0, repay) == (
        fund_step(m, fund).0, Err::<Effects<LoanEvent>, ContractError>(
            ContractError::Guard(GuardViolation::TooEarly),
        )),
        repay.timestamp >= fund.timestamp + m.duration ==> reimburse_step(fund_step(m, fund).0, repay) == (
        with_phase(
            m,
            LoanState::Closed,
            Some((fund.timestamp + m.duration) as u64),
        ), Ok::<Effects<LoanEvent>, ContractError>(
            Effects {
                reply: LoanEvent::Reimbursed,
                transfer: Some(Transfer { to: m.lender, value: (m.amount + m.interest) as Balance }),
            },
        )),
{
}

/// Once a loan has left `Pending`, funding it again is refused with
/// `WrongPhase`, even by the lender with the amount.
pub proof fn lemma_fund_after_funding(m: LoanModel, ctx: MessageContext)
    requires
        m.state != LoanState::Pending,
        ctx.source@ == m.lender@,
        ctx.value == m.amount,
    ensures
        fund_step(m, ctx) == (m, Err::<Effects<LoanEvent>, ContractError>(
            ContractError::Guard(GuardViolation::WrongPhase),
        )),
{
}

proof fn lemma_run_keeps_terms(m: LoanModel, msgs: Seq<(MessageContext, LoanAction)>)
    ensures
        same_terms(m, run(m, msgs)),
    decreases msgs.len(),
{
    if msgs.len() > 0 {
        lemma_run_keeps_terms(loan_step(m, msgs[0].0, msgs[0].1).0, msgs.drop_first());
    }
}

/// After any sequence of messages, `Details` reports the terms given at
/// creation together with the current phase and maturity.
pub proof fn lemma_details_after_run(config: InitLoan, msgs: Seq<(MessageContext, LoanAction)>)
    ensures
        query_reply(run(initial(config), msgs), LoanMetaState::Details) == (LoanMetaStateReply::Details {
            state: run(initial(config), msgs).state,
            lender: config.lender,
            borrower: config.borrower,
            amount: config.amount,
            interest: config.interest,
            duration: config.duration,
            maturity: run(initial(config), msgs).maturity,
        }),
{
    lemma_run_keeps_terms(initial(config), msgs);
}

} // verus!
