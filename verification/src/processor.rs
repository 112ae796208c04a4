//! The agreement processor: validated transitions of the agreement state
//! machine. Each handler is a pure function from the current record bytes
//! and externally verified context to either an error or the action owed to
//! the caller — the new record bytes to persist and, for a payment, the
//! atomic transfer to request first. A failed transition returns only an
//! error, so the persisted record is left byte for byte as it was read.

use vstd::prelude::*;
use crate::codec::{decode_record, encode_record, spec_decode, spec_encode};
use crate::error::{ProcessError, RentalAgreementError};
use crate::instruction::{spec_unpack, InstructionView, RentalInstruction};
use crate::state::{AgreementStatus, Identity, RecordView, RentalAgreementAccount};

verus! {

/// Externally verified facts the processor depends on: who owns the record,
/// whether its storage is pre-funded, and who is paying whom with what
/// authority and balance. The collaborators that establish these facts
/// (ownership registry, signature verification, balance query, rent-exemption
/// check) are outside this core.
pub struct ProcessContext {
    /// The record's declared owner equals this program's identity.
    pub record_owner_matches_program: bool,
    /// The record's backing storage is funded enough to be exempt from
    /// reclamation; consulted only during initialization.
    pub record_rent_exempt: bool,
    /// Identity of the payee account supplied with a payment.
    pub payee: Identity,
    /// Identity of the payer account supplied with a payment.
    pub payer: Identity,
    /// The payer authorized (signed) the instruction.
    pub payer_signed: bool,
    /// The payer's externally observed spendable balance.
    pub payer_balance: u64,
}

/// What the caller owes after a successful transition.
#[derive(Debug)]
pub enum ProcessOutcome {
    /// Nothing: a self-payment short-circuits with no transfer and no write.
    NoOp,
    /// Persist the new record bytes.
    Write { new_record: Vec<u8> },
    /// Request the atomic transfer of `amount` from payer to payee, then
    /// persist the new record bytes only once the transfer has fully
    /// succeeded; on transfer failure persist nothing.
    TransferThenWrite { amount: u64, new_record: Vec<u8> },
}

/// Mathematical model of an outcome.
pub enum OutcomeView {
    NoOp,
    Write { new_record: Seq<u8> },
    TransferThenWrite { amount: u64, new_record: Seq<u8> },
}

impl View for ProcessOutcome {
    type V = OutcomeView;

    open spec fn view(&self) -> OutcomeView {
        match self {
            ProcessOutcome::NoOp => OutcomeView::NoOp,
            ProcessOutcome::Write { new_record } => OutcomeView::Write {
                new_record: new_record@,
            },
            ProcessOutcome::TransferThenWrite { amount, new_record } => {
                OutcomeView::TransferThenWrite { amount: *amount, new_record: new_record@ }
            },
        }
    }
}

/// The model of a transition outcome.
pub open spec fn process_result_view(r: Result<ProcessOutcome, ProcessError>) -> Result<
    OutcomeView,
    ProcessError,
> {
    match r {
        Ok(o) => Ok(o@),
        Err(e) => Err(e),
    }
}

/// The record an accepted initialization writes: all terms from the
/// instruction, active, with every payment still owed.
pub open spec fn spec_initialized_record(
    payee: Seq<u8>,
    payer: Seq<u8>,
    deposit: u64,
    rent_amount: u64,
    duration: u64,
    duration_unit: u8,
) -> RecordView {
    RecordView {
        status: AgreementStatus::Active,
        flat_owner_pubkey: payee,
        tenant_pubkey: payer,
        deposit,
        rent_amount,
        duration,
        duration_unit,
        remaining_payments: duration,
    }
}

/// The record an accepted payment writes: one fewer payment remains, and
/// reaching zero completes the agreement. Only these two fields ever change.
pub open spec fn spec_record_after_payment(rec: RecordView) -> RecordView
    recommends
        rec.remaining_payments >= 1,
{
    let remaining = (rec.remaining_payments - 1) as u64;
    RecordView {
        status: if remaining == 0 {
            AgreementStatus::Completed
        } else {
            rec.status
        },
        remaining_payments: remaining,
        ..rec
    }
}

/// The record a termination writes: ended early, nothing left to pay. Only
/// these two fields ever change.
pub open spec fn spec_record_after_termination(rec: RecordView) -> RecordView {
    RecordView { status: AgreementStatus::Terminated, remaining_payments: 0, ..rec }
}

/// The first record-level check a payment fails, in the order the processor
/// makes them: the record holds an agreement, the supplied payee is the
/// stored one, the agreement is neither complete nor terminated, and the
/// amount is exactly the agreed rent.
pub open spec fn spec_payment_record_error(
    rec: RecordView,
    payee: Seq<u8>,
    amount: u64,
) -> Option<ProcessError> {
    if !rec.is_initialized() {
        Some(ProcessError::UninitializedAccount)
    } else if rec.flat_owner_pubkey != payee {
        Some(ProcessError::InvalidAccountData)
    } else if rec.is_complete() {
        Some(ProcessError::Agreement(RentalAgreementError::AlreadyPaidInFull))
    } else if rec.is_terminated() {
        Some(ProcessError::Agreement(RentalAgreementError::AgreementTerminated))
    } else if rec.rent_amount != amount {
        Some(ProcessError::Agreement(RentalAgreementError::PaymentAmountMismatch))
    } else {
        None
    }
}

/// Outcome of an initialization: checked owner, pre-funding, record layout
/// and emptiness, in that order; on success the fully populated record is
/// written.
pub open spec fn spec_initialize(
    record: Seq<u8>,
    owner_ok: bool,
    rent_exempt: bool,
    payee: Seq<u8>,
    payer: Seq<u8>,
    deposit: u64,
    rent_amount: u64,
    duration: u64,
    duration_unit: u8,
) -> Result<OutcomeView, ProcessError> {
    if !owner_ok {
        Err(ProcessError::IncorrectProgramId)
    } else if !rent_exempt {
        Err(ProcessError::AccountNotRentExempt)
    } else {
        match spec_decode(record) {
            Option::None => Err(ProcessError::InvalidAccountData),
            Option::Some(rec) => if rec.is_initialized() {
                Err(ProcessError::AccountAlreadyInitialized)
            } else {
                Ok(
                    OutcomeView::Write {
                        new_record: spec_encode(
                            spec_initialized_record(
                                payee,
                                payer,
                                deposit,
                                rent_amount,
                                duration,
                                duration_unit,
                            ),
                        ),
                    },
                )
            },
        }
    }
}

/// Outcome of a payment: checked owner, signature, balance, the self-payment
/// short-circuit, record layout, and the record-level checks, in that order;
/// on success the transfer is owed first and the decremented record is
/// written after it.
pub open spec fn spec_pay_rent(
    record: Seq<u8>,
    owner_ok: bool,
    signed: bool,
    balance: u64,
    payer: Seq<u8>,
    payee: Seq<u8>,
    amount: u64,
) -> Result<OutcomeView, ProcessError> {
    if !owner_ok {
        Err(ProcessError::IncorrectProgramId)
    } else if !signed {
        Err(ProcessError::MissingRequiredSignature)
    } else if balance < amount {
        Err(ProcessError::InsufficientFunds)
    } else if payer == payee {
        Ok(OutcomeView::NoOp)
    } else {
        match spec_decode(record) {
            Option::None => Err(ProcessError::InvalidAccountData),
            Option::Some(rec) => match spec_payment_record_error(rec, payee, amount) {
                Option::Some(e) => Err(e),
                Option::None => Ok(
                    OutcomeView::TransferThenWrite {
                        amount,
                        new_record: spec_encode(spec_record_after_payment(rec)),
                    },
                ),
            },
        }
    }
}

/// Outcome of a termination: checked owner, record layout, then that the
/// agreement exists and is neither complete nor already terminated; on
/// success the terminated record is written and no funds move.
pub open spec fn spec_terminate(record: Seq<u8>, owner_ok: bool) -> Result<
    OutcomeView,
    ProcessError,
> {
    if !owner_ok {
        Err(ProcessError::IncorrectProgramId)
    } else {
        match spec_decode(record) {
            Option::None => Err(ProcessError::InvalidAccountData),
            Option::Some(rec) => if !rec.is_initialized() {
                Err(ProcessError::UninitializedAccount)
            } else if rec.is_complete() {
                Err(ProcessError::Agreement(RentalAgreementError::AlreadyPaidInFull))
            } else if rec.is_terminated() {
                Err(ProcessError::Agreement(RentalAgreementError::AgreementTerminated))
            } else {
                Ok(
                    OutcomeView::Write {
                        new_record: spec_encode(spec_record_after_termination(rec)),
                    },
                )
            },
        }
    }
}

/// A payment against this record and context passes every check, so the
/// transition reaches the counter decrement.
pub open spec fn spec_payment_accepted(
    record: Seq<u8>,
    owner_ok: bool,
    signed: bool,
    balance: u64,
    payer: Seq<u8>,
    payee: Seq<u8>,
    amount: u64,
) -> bool {
    owner_ok && signed && balance >= amount && payer != payee && (spec_decode(record)
        matches Some(rec) && spec_payment_record_error(rec, payee, amount) is None)
}

/// The guard under which the payment counter cannot underflow: a record that
/// accepts a payment has one left. Every record this core itself writes as
/// active with a positive duration satisfies it.
pub open spec fn spec_payment_counter_safe(
    record: Seq<u8>,
    owner_ok: bool,
    signed: bool,
    balance: u64,
    payer: Seq<u8>,
    payee: Seq<u8>,
    amount: u64,
) -> bool {
    spec_payment_accepted(record, owner_ok, signed, balance, payer, payee, amount)
        ==> spec_decode(record).unwrap().remaining_payments >= 1
}

/// Outcome of processing one instruction buffer against one record.
pub open spec fn spec_process(record: Seq<u8>, instruction: Seq<u8>, ctx: ProcessContext) -> Result<
    OutcomeView,
    ProcessError,
> {
    match spec_unpack(instruction) {
        Result::Err(e) => Err(e),
        Result::Ok(
            InstructionView::Initialization {
                flat_owner_pubkey,
                tenant_pubkey,
                deposit,
                rent_amount,
                duration,
                duration_unit,
            },
        ) => spec_initialize(
            record,
            ctx.record_owner_matches_program,
            ctx.record_rent_exempt,
            flat_owner_pubkey,
            tenant_pubkey,
            deposit,
            rent_amount,
            duration,
            duration_unit,
        ),
        Result::Ok(InstructionView::Payment { rent_amount }) => spec_pay_rent(
            record,
            ctx.record_owner_matches_program,
            ctx.payer_signed,
            ctx.payer_balance,
            ctx.payer@,
            ctx.payee@,
            rent_amount,
        ),
        Result::Ok(InstructionView::TerminationBeforeInitialDate { .. }) => spec_terminate(
            record,
            ctx.record_owner_matches_program,
        ),
    }
}

/// The agreement processor.
pub struct Processor;

impl Processor {
    /// Decodes one instruction buffer and runs the transition it names
    /// against the given record bytes and context.
    pub fn process(record_bytes: &[u8], instruction_data: &[u8], ctx: &ProcessContext) -> (r:
        Result<ProcessOutcome, ProcessError>)
        requires
            spec_unpack(instruction_data@) matches Ok(InstructionView::Payment { rent_amount })
                ==> spec_payment_counter_safe(
                    record_bytes@,
                    ctx.record_owner_matches_program,
                    ctx.payer_signed,
                    ctx.payer_balance,
                    ctx.payer@,
                    ctx.payee@,
                    rent_amount,
                ),
        ensures
            process_result_view(r) == spec_process(record_bytes@, instruction_data@, *ctx),
    {
        let instruction = match RentalInstruction::unpack(instruction_data) {
            Ok(i) => i,
            Err(e) => {
                return Err(e);
            },
        };
        match instruction {
            RentalInstruction::Initialization {
                flat_owner_pubkey,
                tenant_pubkey,
                deposit,
                rent_amount,
                duration,
                duration_unit,
            } => Self::initialize_rent_contract(
                record_bytes,
                ctx.record_owner_matches_program,
                ctx.record_rent_exempt,
                &flat_owner_pubkey,
                &tenant_pubkey,
                deposit,
                rent_amount,
                duration,
                duration_unit,
            ),
            RentalInstruction::Payment { rent_amount } => Self::pay_rent(
                record_bytes,
                ctx,
                rent_amount,
            ),
            RentalInstruction::TerminationBeforeInitialDate {  } => {
                Self::terminate_before_initial_date(record_bytes, ctx.record_owner_matches_program)
            },
        }
    }

    /// Initialization transition: populates every field of an empty record
    /// from the instruction and activates the agreement. The only transition
    /// that may write the identities and terms.
    pub fn initialize_rent_contract(
        record_bytes: &[u8],
        owner_matches_program: bool,
        rent_exempt: bool,
        payee: &Identity,
        payer: &Identity,
        deposit: u64,
        rent_amount: u64,
        duration: u64,
        duration_unit: u8,
    ) -> (r: Result<ProcessOutcome, ProcessError>)
        ensures
            process_result_view(r) == spec_initialize(
                record_bytes@,
                owner_matches_program,
                rent_exempt,
                payee@,
                payer@,
                deposit,
                rent_amount,
                duration,
                duration_unit,
            ),
    {
        if !owner_matches_program {
            return Err(ProcessError::IncorrectProgramId);
        }
        if !rent_exempt {
            return Err(ProcessError::AccountNotRentExempt);
        }
        let rec = match decode_record(record_bytes) {
            Some(rec) => rec,
            None => {
                return Err(ProcessError::InvalidAccountData);
            },
        };
        if rec.is_initialized() {
            return Err(ProcessError::AccountAlreadyInitialized);
        }
        let new_rec = RentalAgreementAccount {
            status: AgreementStatus::Active,
            flat_owner_pubkey: *payee,
            tenant_pubkey: *payer,
            deposit,
            rent_amount,
            duration,
            duration_unit,
            remaining_payments: duration,
        };
        proof {
            assert(new_rec@ =~= spec_initialized_record(
                payee@,
                payer@,
                deposit,
                rent_amount,
                duration,
                duration_unit,
            ));
        }
        Ok(ProcessOutcome::Write { new_record: encode_record(&new_rec) })
    }

    /// The first record-level check a payment fails, or nothing when all of
    /// them pass.
    pub fn payment_record_error(rec: &RentalAgreementAccount, payee: &Identity, amount: u64) -> (r:
        Option<ProcessError>)
        ensures
            r == spec_payment_record_error(rec@, payee@, amount),
    {
        if !rec.is_initialized() {
            Some(ProcessError::UninitializedAccount)
        } else if !rec.flat_owner_pubkey.same_as(payee) {
            Some(ProcessError::InvalidAccountData)
        } else if rec.is_complete() {
            Some(ProcessError::Agreement(RentalAgreementError::AlreadyPaidInFull))
        } else if rec.is_terminated() {
            Some(ProcessError::Agreement(RentalAgreementError::AgreementTerminated))
        } else if rec.rent_amount != amount {
            Some(ProcessError::Agreement(RentalAgreementError::PaymentAmountMismatch))
        } else {
            None
        }
    }

    /// Payment transition: validates authority, balance, record state and
    /// amount in order, then owes the caller an atomic transfer and, after
    /// it, the decremented record. A payer paying themselves succeeds with
    /// nothing owed at all.
    pub fn pay_rent(record_bytes: &[u8], ctx: &ProcessContext, rent_amount: u64) -> (r: Result<
        ProcessOutcome,
        ProcessError,
    >)
        requires
            spec_payment_counter_safe(
                record_bytes@,
                ctx.record_owner_matches_program,
                ctx.payer_signed,
                ctx.payer_balance,
                ctx.payer@,
                ctx.payee@,
                rent_amount,
            ),
        ensures
            process_result_view(r) == spec_pay_rent(
                record_bytes@,
                ctx.record_owner_matches_program,
                ctx.payer_signed,
                ctx.payer_balance,
                ctx.payer@,
                ctx.payee@,
                rent_amount,
            ),
    {
        if !ctx.record_owner_matches_program {
            return Err(ProcessError::IncorrectProgramId);
        }
        if !ctx.payer_signed {
            return Err(ProcessError::MissingRequiredSignature);
        }
        if ctx.payer_balance < rent_amount {
            return Err(ProcessError::InsufficientFunds);
        }
        if ctx.payer.same_as(&ctx.payee) {
            return Ok(ProcessOutcome::NoOp);
        }
        let rec = match decode_record(record_bytes) {
            Some(rec) => rec,
            None => {
                return Err(ProcessError::InvalidAccountData);
            },
        };
        match Self::payment_record_error(&rec, &ctx.payee, rent_amount) {
            Some(e) => {
                return Err(e);
            },
            None => {},
        }
        // The record is active here, so the precondition says a payment is
        // left and the decrement cannot underflow.
        let remaining = rec.remaining_payments - 1;
        let new_rec = RentalAgreementAccount {
            status: if remaining == 0 {
                AgreementStatus::Completed
            } else {
                rec.status
            },
            remaining_payments: remaining,
            ..rec
        };
        proof {
            assert(new_rec@ =~= spec_record_after_payment(rec@));
        }
        Ok(
            ProcessOutcome::TransferThenWrite {
                amount: rent_amount,
                new_record: encode_record(&new_rec),
            },
        )
    }

    /// Payment transition for callers that have not ruled the counter
    /// underflow out themselves: decides first whether this payment would be
    /// accepted with no payment left — the one state the unchecked decrement
    /// cannot serve — and declines to decide there, returning nothing.
    pub fn pay_rent_checked(record_bytes: &[u8], ctx: &ProcessContext, rent_amount: u64) -> (r:
        Option<Result<ProcessOutcome, ProcessError>>)
        ensures
            ({
                let safe = spec_payment_counter_safe(
                    record_bytes@,
                    ctx.record_owner_matches_program,
                    ctx.payer_signed,
                    ctx.payer_balance,
                    ctx.payer@,
                    ctx.payee@,
                    rent_amount,
                );
                if safe {
                    r matches Some(inner) && process_result_view(inner) == spec_pay_rent(
                        record_bytes@,
                        ctx.record_owner_matches_program,
                        ctx.payer_signed,
                        ctx.payer_balance,
                        ctx.payer@,
                        ctx.payee@,
                        rent_amount,
                    )
                } else {
                    r is None
                }
            }),
    {
        let would_underflow = ctx.record_owner_matches_program && ctx.payer_signed
            && ctx.payer_balance >= rent_amount && !ctx.payer.same_as(&ctx.payee) && (
        match decode_record(record_bytes) {
            Some(rec) => rec.remaining_payments == 0 && Self::payment_record_error(
                &rec,
                &ctx.payee,
                rent_amount,
            ).is_none(),
            None => false,
        });
        if would_underflow {
            None
        } else {
            Some(Self::pay_rent(record_bytes, ctx, rent_amount))
        }
    }

    /// One-instruction processing for callers that have not ruled the payment
    /// counter underflow out themselves: as `process`, but declining to
    /// decide, and returning nothing, exactly where a payment would be
    /// accepted with no payment left.
    pub fn process_checked(record_bytes: &[u8], instruction_data: &[u8], ctx: &ProcessContext)
        -> (r: Option<Result<ProcessOutcome, ProcessError>>)
        ensures
            ({
                let safe = (spec_unpack(instruction_data@) matches Ok(
                    InstructionView::Payment { rent_amount },
                ) ==> spec_payment_counter_safe(
                    record_bytes@,
                    ctx.record_owner_matches_program,
                    ctx.payer_signed,
                    ctx.payer_balance,
                    ctx.payer@,
                    ctx.payee@,
                    rent_amount,
                ));
                if safe {
                    r matches Some(inner) && process_result_view(inner) == spec_process(
                        record_bytes@,
                        instruction_data@,
                        *ctx,
                    )
                } else {
                    r is None
                }
            }),
    {
        let instruction = match RentalInstruction::unpack(instruction_data) {
            Ok(i) => i,
            Err(e) => {
                return Some(Err(e));
            },
        };
        match instruction {
            RentalInstruction::Payment { rent_amount } => Self::pay_rent_checked(
                record_bytes,
                ctx,
                rent_amount,
            ),
            _ => Some(Self::process(record_bytes, instruction_data, ctx)),
        }
    }

    /// Termination transition: ends an existing, still-active agreement
    /// early. Gated only on current status; no calendar time is evaluated
    /// here, and no funds move.
    pub fn terminate_before_initial_date(record_bytes: &[u8], owner_matches_program: bool) -> (r:
        Result<ProcessOutcome, ProcessError>)
        ensures
            process_result_view(r) == spec_terminate(record_bytes@, owner_matches_program),
    {
        if !owner_matches_program {
            return Err(ProcessError::IncorrectProgramId);
        }
        let rec = match decode_record(record_bytes) {
            Some(rec) => rec,
            None => {
                return Err(ProcessError::InvalidAccountData);
            },
        };
        if !rec.is_initialized() {
            return Err(ProcessError::UninitializedAccount);
        }
        if rec.is_complete() {
            return Err(ProcessError::Agreement(RentalAgreementError::AlreadyPaidInFull));
        }
        if rec.is_terminated() {
            return Err(ProcessError::Agreement(RentalAgreementError::AgreementTerminated));
        }
        let new_rec = RentalAgreementAccount {
            status: AgreementStatus::Terminated,
            remaining_payments: 0,
            ..rec
        };
        proof {
            assert(new_rec@ =~= spec_record_after_termination(rec@));
        }
        Ok(ProcessOutcome::Write { new_record: encode_record(&new_rec) })
    }
}

} // verus!
