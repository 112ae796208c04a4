//! The laws of the agreement lifecycle, stated over the same spec functions
//! the transition contracts use and proved once for all inputs: what an
//! accepted initialization writes, how payments advance and complete an
//! agreement, what a termination ends, and that the terminal states reject
//! every later transition.

use vstd::prelude::*;
use crate::codec::{lemma_decode_of_encode, lemma_decode_wf, spec_decode, spec_encode};
use crate::error::{ProcessError, RentalAgreementError};
use crate::processor::{
    spec_initialize, spec_initialized_record, spec_pay_rent, spec_record_after_payment,
    spec_record_after_termination, spec_terminate, OutcomeView,
};

verus! {

/// Law: on an empty record, an accepted initialization writes a record that
/// is active, owes exactly `duration` payments, and stores the two
/// identities as given; and initializing that record again fails as already
/// initialized, whatever terms are offered, writing nothing.
pub proof fn lemma_initialization(
    record: Seq<u8>,
    payee: Seq<u8>,
    payer: Seq<u8>,
    deposit: u64,
    rent_amount: u64,
    duration: u64,
    duration_unit: u8,
)
    requires
        payee.len() == 32,
        payer.len() == 32,
        spec_decode(record) matches Some(rec) && !rec.is_initialized(),
    ensures
        ({
            let new_rec = spec_initialized_record(
                payee,
                payer,
                deposit,
                rent_amount,
                duration,
                duration_unit,
            );
            spec_initialize(
                record,
                true,
                true,
                payee,
                payer,
                deposit,
                rent_amount,
                duration,
                duration_unit,
            ) == Ok::<OutcomeView, ProcessError>(
                OutcomeView::Write { new_record: spec_encode(new_rec) },
            ) && spec_decode(spec_encode(new_rec)) == Some(new_rec)
                && new_rec.status is Active
                && new_rec.remaining_payments == duration
                && new_rec.flat_owner_pubkey == payee
                && new_rec.tenant_pubkey == payer
                && (forall|p2: Seq<u8>, t2: Seq<u8>, d2: u64, r2: u64, du2: u64, un2: u8|
                    spec_initialize(spec_encode(new_rec), true, true, p2, t2, d2, r2, du2, un2)
                        == Err::<OutcomeView, ProcessError>(ProcessError::AccountAlreadyInitialized))
        }),
{
    let new_rec = spec_initialized_record(payee, payer, deposit, rent_amount, duration, duration_unit);
    lemma_decode_of_encode(new_rec);
}

/// Law: a correctly-amounted, correctly-addressed payment on an active
/// record with more than one payment left decrements the counter by one and
/// keeps the agreement active; every stored term and identity is unchanged.
pub proof fn lemma_payment_decrements(record: Seq<u8>, balance: u64, payer: Seq<u8>, amount: u64)
    requires
        spec_decode(record) matches Some(rec) && rec.status is Active
            && rec.remaining_payments > 1 && rec.rent_amount == amount
            && payer != rec.flat_owner_pubkey,
        balance >= amount,
    ensures
        ({
            let rec = spec_decode(record).unwrap();
            let new_rec = spec_record_after_payment(rec);
            spec_pay_rent(record, true, true, balance, payer, rec.flat_owner_pubkey, amount)
                == Ok::<OutcomeView, ProcessError>(
                OutcomeView::TransferThenWrite { amount, new_record: spec_encode(new_rec) },
            ) && spec_decode(spec_encode(new_rec)) == Some(new_rec)
                && new_rec.status is Active
                && new_rec.remaining_payments == rec.remaining_payments - 1
                && new_rec.flat_owner_pubkey == rec.flat_owner_pubkey
                && new_rec.tenant_pubkey == rec.tenant_pubkey
                && new_rec.deposit == rec.deposit
                && new_rec.rent_amount == rec.rent_amount
                && new_rec.duration == rec.duration
        }),
{
    let rec = spec_decode(record).unwrap();
    lemma_decode_wf(record);
    lemma_decode_of_encode(spec_record_after_payment(rec));
}

/// Law: the payment that exhausts the counter completes the agreement with
/// nothing left to pay, and any further correctly-addressed payment fails
/// as already paid in full, writing nothing and moving no funds.
pub proof fn lemma_final_payment_completes(
    record: Seq<u8>,
    balance: u64,
    payer: Seq<u8>,
    amount: u64,
)
    requires
        spec_decode(record) matches Some(rec) && rec.status is Active
            && rec.remaining_payments == 1 && rec.rent_amount == amount
            && payer != rec.flat_owner_pubkey,
        balance >= amount,
    ensures
        ({
            let rec = spec_decode(record).unwrap();
            let new_rec = spec_record_after_payment(rec);
            spec_pay_rent(record, true, true, balance, payer, rec.flat_owner_pubkey, amount)
                == Ok::<OutcomeView, ProcessError>(
                OutcomeView::TransferThenWrite { amount, new_record: spec_encode(new_rec) },
            ) && new_rec.status is Completed
                && new_rec.remaining_payments == 0
                && (forall|balance2: u64, payer2: Seq<u8>, amount2: u64|
                    balance2 >= amount2 && payer2 != new_rec.flat_owner_pubkey
                        ==> spec_pay_rent(
                        spec_encode(new_rec),
                        true,
                        true,
                        balance2,
                        payer2,
                        new_rec.flat_owner_pubkey,
                        amount2,
                    ) == Err::<OutcomeView, ProcessError>(
                        ProcessError::Agreement(RentalAgreementError::AlreadyPaidInFull),
                    ))
        }),
{
    let rec = spec_decode(record).unwrap();
    lemma_decode_wf(record);
    lemma_decode_of_encode(spec_record_after_payment(rec));
}

/// Law: a payment whose amount differs from the agreed rent fails with the
/// amount-mismatch error; the outcome carries no transfer and no bytes to
/// write.
pub proof fn lemma_payment_amount_mismatch(
    record: Seq<u8>,
    balance: u64,
    payer: Seq<u8>,
    amount: u64,
)
    requires
        spec_decode(record) matches Some(rec) && rec.status is Active
            && rec.rent_amount != amount && payer != rec.flat_owner_pubkey,
        balance >= amount,
    ensures
        spec_pay_rent(
            record,
            true,
            true,
            balance,
            payer,
            spec_decode(record).unwrap().flat_owner_pubkey,
            amount,
        ) == Err::<OutcomeView, ProcessError>(
            ProcessError::Agreement(RentalAgreementError::PaymentAmountMismatch),
        ),
{
}

/// Law: a payment where payer equals payee succeeds with no transfer and no
/// write, whatever the record bytes hold and however many payments remain.
pub proof fn lemma_self_payment_no_op(record: Seq<u8>, balance: u64, who: Seq<u8>, amount: u64)
    requires
        balance >= amount,
    ensures
        spec_pay_rent(record, true, true, balance, who, who, amount) == Ok::<
            OutcomeView,
            ProcessError,
        >(OutcomeView::NoOp),
{
}

/// Law: terminating an active record ends it with no payments left, and on
/// the terminated record any later termination, and any later
/// correctly-addressed payment, fails as terminated.
pub proof fn lemma_termination(record: Seq<u8>)
    requires
        spec_decode(record) matches Some(rec) && rec.status is Active,
    ensures
        ({
            let rec = spec_decode(record).unwrap();
            let new_rec = spec_record_after_termination(rec);
            spec_terminate(record, true) == Ok::<OutcomeView, ProcessError>(
                OutcomeView::Write { new_record: spec_encode(new_rec) },
            ) && new_rec.status is Terminated
                && new_rec.remaining_payments == 0
                && new_rec.flat_owner_pubkey == rec.flat_owner_pubkey
                && new_rec.tenant_pubkey == rec.tenant_pubkey
                && new_rec.deposit == rec.deposit
                && new_rec.rent_amount == rec.rent_amount
                && new_rec.duration == rec.duration
                && spec_terminate(spec_encode(new_rec), true) == Err::<OutcomeView, ProcessError>(
                ProcessError::Agreement(RentalAgreementError::AgreementTerminated),
            )
                && (forall|balance: u64, payer: Seq<u8>, amount: u64|
                    balance >= amount && payer != new_rec.flat_owner_pubkey
                        ==> spec_pay_rent(
                        spec_encode(new_rec),
                        true,
                        true,
                        balance,
                        payer,
                        new_rec.flat_owner_pubkey,
                        amount,
                    ) == Err::<OutcomeView, ProcessError>(
                        ProcessError::Agreement(RentalAgreementError::AgreementTerminated),
                    ))
        }),
{
    let rec = spec_decode(record).unwrap();
    lemma_decode_wf(record);
    lemma_decode_of_encode(spec_record_after_termination(rec));
}

} // verus!
