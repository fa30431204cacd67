use escrow_loan::loan::{
    handle, init, meta_state, InitLoan, Loan, LoanAction, LoanEvent, LoanMetaState, LoanMetaStateReply, LoanState,
};
use escrow_loan::{ActorId, Balance, ContractError, Effects, GuardViolation, MessageContext, Transfer};

const AMOUNT: Balance = 1000;
const INTEREST: Balance = 100;
const LENDER: u64 = 2;
const BORROWER: u64 = 3;
const DURATION: u64 = 10 * 24 * 60 * 60 * 1000;
const START: u64 = 1_000;

fn actor(n: u64) -> ActorId {
    let mut bytes = [0u8; 32];
    bytes[12..20].copy_from_slice(&n.to_le_bytes());
    ActorId::new(bytes)
}

fn terms() -> InitLoan {
    InitLoan {
        amount: AMOUNT,
        interest: INTEREST,
        lender: actor(LENDER),
        borrower: actor(BORROWER),
        duration: DURATION,
    }
}

fn init_loan() -> Loan {
    init(terms()).expect("terms fit")
}

fn fund(loan: &mut Loan, from: u64, amount: Balance, at: u64) -> Result<Effects<LoanEvent>, ContractError> {
    handle(loan, &MessageContext { source: actor(from), value: amount, timestamp: at }, LoanAction::Fund)
}

fn reimburse(loan: &mut Loan, from: u64, amount: Balance, at: u64) -> Result<Effects<LoanEvent>, ContractError> {
    handle(loan, &MessageContext { source: actor(from), value: amount, timestamp: at }, LoanAction::Reimburse)
}

fn phase(loan: &Loan) -> LoanState {
    match meta_state(loan, LoanMetaState::CurrentState) {
        LoanMetaStateReply::CurrentState(s) => s,
        other => panic!("unexpected reply {:?}", other),
    }
}

fn details(state: LoanState, maturity: Option<u64>) -> LoanMetaStateReply {
    LoanMetaStateReply::Details {
        state,
        lender: actor(LENDER),
        borrower: actor(BORROWER),
        amount: AMOUNT,
        interest: INTEREST,
        duration: DURATION,
        maturity,
    }
}

#[test]
fn fund_success() {
    let mut loan = init_loan();
    let res = fund(&mut loan, LENDER, AMOUNT, START);
    assert_eq!(
        res,
        Ok(Effects { reply: LoanEvent::Funded, transfer: Some(Transfer { to: actor(BORROWER), value: AMOUNT }) })
    );
}

#[test]
fn fund_failures() {
    let mut loan = init_loan();
    // the caller account is not the lender
    assert!(fund(&mut loan, BORROWER, AMOUNT, START).is_err());
    // the attached value is not the amount of the loan
    assert!(fund(&mut loan, LENDER, 1001, START).is_err());

    assert!(fund(&mut loan, LENDER, AMOUNT, START).is_ok());
    assert!(reimburse(&mut loan, BORROWER, 1100, START + DURATION).is_ok());

    // the loan is already closed
    assert!(fund(&mut loan, LENDER, AMOUNT, START + DURATION).is_err());
}

#[test]
fn reimburse_success() {
    let mut loan = init_loan();
    let res = fund(&mut loan, LENDER, AMOUNT, START);
    assert_eq!(res.map(|e| e.reply), Ok(LoanEvent::Funded));

    let res = reimburse(&mut loan, BORROWER, AMOUNT + INTEREST, START + DURATION);
    assert_eq!(res.map(|e| e.reply), Ok(LoanEvent::Reimbursed));
}

#[test]
fn reimburse_failures() {
    let mut loan = init_loan();
    // the caller account is not the lender
    assert!(fund(&mut loan, BORROWER, 1000, START).is_err());
    // the attached value is not the amount of the loan
    assert!(fund(&mut loan, LENDER, 1001, START).is_err());

    assert!(fund(&mut loan, LENDER, 1000, START).is_ok());
    assert!(reimburse(&mut loan, BORROWER, 1100, START + DURATION).is_ok());

    // the loan is already closed
    assert!(fund(&mut loan, LENDER, 1000, START + DURATION).is_err());
}

#[test]
fn loan_end_to_end() {
    let mut lender_balance: Balance = 5_000;
    let mut loan = init_loan();
    let res = fund(&mut loan, LENDER, 1000, START).expect("funded");
    assert_eq!(res.reply, LoanEvent::Funded);
    assert_eq!(phase(&loan), LoanState::Active);
    assert_eq!(meta_state(&loan, LoanMetaState::Details), details(LoanState::Active, Some(START + DURATION)));

    let res = reimburse(&mut loan, BORROWER, 1100, START + DURATION).expect("reimbursed");
    assert_eq!(res.reply, LoanEvent::Reimbursed);
    assert_eq!(phase(&loan), LoanState::Closed);
    let transfer = res.transfer.expect("a transfer");
    assert_eq!(transfer.to, actor(LENDER));
    lender_balance += transfer.value;
    assert_eq!(lender_balance, 6_100);
}

#[test]
fn loan_failure_kinds() {
    let mut loan = init_loan();
    assert_eq!(fund(&mut loan, BORROWER, AMOUNT, START), Err(ContractError::Guard(GuardViolation::WrongCaller)));
    assert_eq!(fund(&mut loan, LENDER, 1001, START), Err(ContractError::Guard(GuardViolation::WrongValue)));
    assert_eq!(
        reimburse(&mut loan, BORROWER, 1100, START),
        Err(ContractError::Guard(GuardViolation::WrongPhase))
    );
    assert!(fund(&mut loan, LENDER, AMOUNT, START).is_ok());
    assert_eq!(
        reimburse(&mut loan, BORROWER, 1100, START + DURATION - 1),
        Err(ContractError::Guard(GuardViolation::TooEarly))
    );
    assert_eq!(fund(&mut loan, LENDER, AMOUNT, START), Err(ContractError::Guard(GuardViolation::WrongPhase)));
    assert_eq!(
        reimburse(&mut loan, BORROWER, 1000, START + DURATION),
        Err(ContractError::Guard(GuardViolation::WrongValue))
    );
    assert_eq!(phase(&loan), LoanState::Active);
}

#[test]
fn loan_reimburse_after_maturity_pays_lender() {
    let mut loan = init_loan();
    assert!(fund(&mut loan, LENDER, AMOUNT, START).is_ok());
    let res = reimburse(&mut loan, BORROWER, 1100, START + 3 * DURATION);
    assert_eq!(
        res,
        Ok(Effects { reply: LoanEvent::Reimbursed, transfer: Some(Transfer { to: actor(LENDER), value: 1100 }) })
    );
}

#[test]
fn loan_all_guards_wrong_reports_caller() {
    let mut loan = init_loan();
    assert_eq!(reimburse(&mut loan, LENDER, 1, START), Err(ContractError::Guard(GuardViolation::WrongCaller)));
}

#[test]
fn loan_repeated_rejection_is_identical() {
    let mut loan = init_loan();
    assert!(fund(&mut loan, LENDER, AMOUNT, START).is_ok());
    let before = meta_state(&loan, LoanMetaState::Details);
    let first = reimburse(&mut loan, BORROWER, 1100, START + 1);
    let second = reimburse(&mut loan, BORROWER, 1100, START + 1);
    assert_eq!(first, Err(ContractError::Guard(GuardViolation::TooEarly)));
    assert_eq!(first, second);
    assert_eq!(meta_state(&loan, LoanMetaState::Details), before);
}

#[test]
fn loan_details_in_every_phase() {
    let mut loan = init_loan();
    assert_eq!(meta_state(&loan, LoanMetaState::Details), details(LoanState::Pending, None));
    assert!(fund(&mut loan, LENDER, AMOUNT, 0).is_ok());
    assert_eq!(meta_state(&loan, LoanMetaState::Details), details(LoanState::Active, Some(DURATION)));
    assert!(reimburse(&mut loan, BORROWER, 1100, DURATION).is_ok());
    assert_eq!(meta_state(&loan, LoanMetaState::Details), details(LoanState::Closed, Some(DURATION)));
}

#[test]
fn loan_funded_at_time_zero_with_zero_duration_has_a_maturity() {
    let mut loan = init(InitLoan { duration: 0, ..terms() }).expect("terms fit");
    assert!(fund(&mut loan, LENDER, AMOUNT, 0).is_ok());
    match meta_state(&loan, LoanMetaState::Details) {
        LoanMetaStateReply::Details { maturity, .. } => assert_eq!(maturity, Some(0)),
        other => panic!("unexpected reply {:?}", other),
    }
    assert!(reimburse(&mut loan, BORROWER, 1100, 0).is_ok());
}

#[test]
fn loan_terms_whose_repayment_overflows_are_refused() {
    let res = init(InitLoan { amount: Balance::MAX, interest: 1, ..terms() });
    assert_eq!(res.err(), Some(ContractError::ArithmeticOverflow));
    let res = init(InitLoan { amount: Balance::MAX - 1, interest: 1, ..terms() });
    assert!(res.is_ok());
}

#[test]
fn loan_maturity_overflow_is_refused() {
    let mut loan = init(InitLoan { duration: 10, ..terms() }).expect("terms fit");
    assert_eq!(fund(&mut loan, LENDER, AMOUNT, u64::MAX - 9), Err(ContractError::ArithmeticOverflow));
    assert_eq!(phase(&loan), LoanState::Pending);
    assert!(fund(&mut loan, LENDER, AMOUNT, u64::MAX - 10).is_ok());
}

#[test]
fn loan_state_default_is_pending() {
    assert_eq!(LoanState::default(), LoanState::Pending);
}
