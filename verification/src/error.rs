//! Error taxonomy: agreement-specific failures and the full surface of
//! failures a transition can report. Every failure is fatal to the current
//! call and leaves the persisted record untouched.

use vstd::prelude::*;

verus! {

/// Failures specific to the agreement's own terms, reported under custom
/// error codes.
#[derive(Clone, Copy, Debug, PartialEq, Eq, Structural)]
pub enum RentalAgreementError {
    /// Every agreed payment has already been made.
    AlreadyPaidInFull,
    /// A payment's amount differs from the agreed rent amount.
    PaymentAmountMismatch,
    /// The agreement was ended early; no further transition is accepted.
    AgreementTerminated,
}

/// The custom error code under which an agreement failure is reported.
pub open spec fn spec_error_code(e: RentalAgreementError) -> u32 {
    match e {
        RentalAgreementError::AlreadyPaidInFull => 100,
        RentalAgreementError::PaymentAmountMismatch => 101,
        RentalAgreementError::AgreementTerminated => 102,
    }
}

impl RentalAgreementError {
    pub fn code(&self) -> (r: u32)
        ensures
            r == spec_error_code(*self),
    {
        match self {
            RentalAgreementError::AlreadyPaidInFull => 100,
            RentalAgreementError::PaymentAmountMismatch => 101,
            RentalAgreementError::AgreementTerminated => 102,
        }
    }
}

/// Every failure the processor can surface. Malformed-input and
/// authorization failures carry their own variants; agreement-term failures
/// are wrapped verbatim.
#[derive(Clone, Copy, Debug, PartialEq, Eq, Structural)]
pub enum ProcessError {
    /// Unknown instruction tag or truncated instruction payload.
    InvalidInstructionData,
    /// The record's declared owner is not this program's identity.
    IncorrectProgramId,
    /// The record's backing storage is not funded enough to be exempt from
    /// reclamation.
    AccountNotRentExempt,
    /// The record bytes do not have the expected fixed layout, or a supplied
    /// identity contradicts the stored one.
    InvalidAccountData,
    /// Initialization was attempted on a record that already holds an
    /// agreement.
    AccountAlreadyInitialized,
    /// A transition other than initialization was attempted on an empty
    /// record.
    UninitializedAccount,
    /// The payer did not authorize the instruction.
    MissingRequiredSignature,
    /// The payer's observed balance cannot cover the payment.
    InsufficientFunds,
    /// A failure of the agreement's own terms.
    Agreement(RentalAgreementError),
}

impl From<RentalAgreementError> for ProcessError {
    fn from(e: RentalAgreementError) -> (r: ProcessError) {
        ProcessError::Agreement(e)
    }
}

impl vstd::std_specs::convert::FromSpecImpl<RentalAgreementError> for ProcessError {
    open spec fn obeys_from_spec() -> bool {
        true
    }

    open spec fn from_spec(e: RentalAgreementError) -> ProcessError {
        ProcessError::Agreement(e)
    }
}

} // verus!
