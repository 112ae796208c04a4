use rental_agreement::error::{ProcessError, RentalAgreementError};
use rental_agreement::processor::{ProcessContext, ProcessOutcome, Processor};
use rental_agreement::state::{Duration, Identity};

const PAYEE: [u8; 32] = [1u8; 32];
const PAYER: [u8; 32] = [2u8; 32];

fn ctx() -> ProcessContext {
    ProcessContext {
        record_owner_matches_program: true,
        record_rent_exempt: true,
        payee: Identity::new(PAYEE),
        payer: Identity::new(PAYER),
        payer_signed: true,
        payer_balance: 1_000,
    }
}

fn initialized_record() -> Vec<u8> {
    match Processor::initialize_rent_contract(
        &vec![0u8; 98],
        true,
        true,
        &Identity::new(PAYEE),
        &Identity::new(PAYER),
        500,
        100,
        12,
        Duration::Months.tag(),
    ) {
        Ok(ProcessOutcome::Write { new_record }) => new_record,
        other => panic!("initialization did not write a record: {:?}", other),
    }
}

#[test]
fn wrong_owner_is_fatal_for_every_transition() {
    let bytes = initialized_record();
    let r = Processor::initialize_rent_contract(
        &vec![0u8; 98],
        false,
        true,
        &Identity::new(PAYEE),
        &Identity::new(PAYER),
        500,
        100,
        12,
        0,
    );
    assert!(matches!(r, Err(ProcessError::IncorrectProgramId)));
    let mut bad_ctx = ctx();
    bad_ctx.record_owner_matches_program = false;
    assert!(matches!(
        Processor::pay_rent(&bytes, &bad_ctx, 100),
        Err(ProcessError::IncorrectProgramId)
    ));
    assert!(matches!(
        Processor::terminate_before_initial_date(&bytes, false),
        Err(ProcessError::IncorrectProgramId)
    ));
}

#[test]
fn initialization_requires_rent_exemption() {
    let r = Processor::initialize_rent_contract(
        &vec![0u8; 98],
        true,
        false,
        &Identity::new(PAYEE),
        &Identity::new(PAYER),
        500,
        100,
        12,
        0,
    );
    assert!(matches!(r, Err(ProcessError::AccountNotRentExempt)));
}

#[test]
fn malformed_record_bytes_are_invalid_account_data() {
    let short = vec![0u8; 42];
    let r = Processor::initialize_rent_contract(
        &short,
        true,
        true,
        &Identity::new(PAYEE),
        &Identity::new(PAYER),
        500,
        100,
        12,
        0,
    );
    assert!(matches!(r, Err(ProcessError::InvalidAccountData)));
    assert!(matches!(
        Processor::pay_rent(&short, &ctx(), 100),
        Err(ProcessError::InvalidAccountData)
    ));
    assert!(matches!(
        Processor::terminate_before_initial_date(&short, true),
        Err(ProcessError::InvalidAccountData)
    ));
}

#[test]
fn payment_requires_signature() {
    let bytes = initialized_record();
    let mut unsigned = ctx();
    unsigned.payer_signed = false;
    assert!(matches!(
        Processor::pay_rent(&bytes, &unsigned, 100),
        Err(ProcessError::MissingRequiredSignature)
    ));
}

#[test]
fn payment_requires_sufficient_balance() {
    let bytes = initialized_record();
    let mut poor = ctx();
    poor.payer_balance = 99;
    assert!(matches!(
        Processor::pay_rent(&bytes, &poor, 100),
        Err(ProcessError::InsufficientFunds)
    ));
}

#[test]
fn payment_and_termination_require_an_initialized_record() {
    let empty = vec![0u8; 98];
    assert!(matches!(
        Processor::pay_rent(&empty, &ctx(), 100),
        Err(ProcessError::UninitializedAccount)
    ));
    assert!(matches!(
        Processor::terminate_before_initial_date(&empty, true),
        Err(ProcessError::UninitializedAccount)
    ));
}

#[test]
fn payment_to_a_different_payee_is_rejected() {
    let bytes = initialized_record();
    let mut redirected = ctx();
    redirected.payee = Identity::new([9u8; 32]);
    assert!(matches!(
        Processor::pay_rent(&bytes, &redirected, 100),
        Err(ProcessError::InvalidAccountData)
    ));
}

#[test]
fn agreement_error_codes() {
    assert_eq!(RentalAgreementError::AlreadyPaidInFull.code(), 100);
    assert_eq!(RentalAgreementError::PaymentAmountMismatch.code(), 101);
    assert_eq!(RentalAgreementError::AgreementTerminated.code(), 102);
}

#[test]
fn agreement_errors_convert_to_process_errors() {
    assert_eq!(
        ProcessError::from(RentalAgreementError::AlreadyPaidInFull),
        ProcessError::Agreement(RentalAgreementError::AlreadyPaidInFull)
    );
    assert_eq!(
        ProcessError::from(RentalAgreementError::AgreementTerminated),
        ProcessError::Agreement(RentalAgreementError::AgreementTerminated)
    );
}

#[test]
fn identity_equality_is_byte_for_byte() {
    let a = Identity::new([3u8; 32]);
    let b = Identity::new([3u8; 32]);
    let mut c_bytes = [3u8; 32];
    c_bytes[31] = 4;
    let c = Identity::new(c_bytes);
    assert!(a.same_as(&b));
    assert!(!a.same_as(&c));
    assert_eq!(a, b);
    assert_ne!(a, c);
}
