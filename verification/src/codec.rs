//! Fixed-layout binary codec for the agreement record. The layout matches
//! exactly the space the external account-allocation step reserves: one
//! status byte, two 32-byte identities, three little-endian 64-bit amounts,
//! one duration-unit byte, and a little-endian 64-bit payment counter, densely
//! packed with no padding — 98 bytes in all.

use vstd::prelude::*;
use vstd::bytes::{
    lemma_auto_spec_u64_to_from_le_bytes, spec_u64_from_le_bytes, spec_u64_to_le_bytes,
    u64_from_le_bytes, u64_to_le_bytes,
};
use vstd::array::array_as_slice;
use vstd::slice::slice_subrange;
use crate::state::{AgreementStatus, Identity, RecordView, RentalAgreementAccount};

verus! {

/// Fixed size, in bytes, of an encoded agreement record.
pub const RECORD_LEN: usize = 98;

/// Wire byte of a status.
pub open spec fn spec_status_byte(s: AgreementStatus) -> u8 {
    match s {
        AgreementStatus::Uninitialized => 0,
        AgreementStatus::Active => 1,
        AgreementStatus::Completed => 2,
        AgreementStatus::Terminated => 3,
    }
}

/// Status named by a wire byte; a byte outside the known set names none.
pub open spec fn spec_status_from_byte(b: u8) -> Option<AgreementStatus> {
    if b == 0 {
        Some(AgreementStatus::Uninitialized)
    } else if b == 1 {
        Some(AgreementStatus::Active)
    } else if b == 2 {
        Some(AgreementStatus::Completed)
    } else if b == 3 {
        Some(AgreementStatus::Terminated)
    } else {
        None
    }
}

/// The bytes a record encodes to.
pub open spec fn spec_encode(r: RecordView) -> Seq<u8>
    recommends
        r.wf(),
{
    seq![spec_status_byte(r.status)] + r.flat_owner_pubkey + r.tenant_pubkey
        + spec_u64_to_le_bytes(r.deposit) + spec_u64_to_le_bytes(r.rent_amount)
        + spec_u64_to_le_bytes(r.duration) + seq![r.duration_unit]
        + spec_u64_to_le_bytes(r.remaining_payments)
}

/// The record a buffer decodes to: defined exactly on buffers of the fixed
/// size whose first byte names a status.
pub open spec fn spec_decode(s: Seq<u8>) -> Option<RecordView> {
    if s.len() != RECORD_LEN {
        None
    } else {
        match spec_status_from_byte(s[0]) {
            Option::None => None,
            Option::Some(st) => Some(
                RecordView {
                    status: st,
                    flat_owner_pubkey: s.subrange(1, 33),
                    tenant_pubkey: s.subrange(33, 65),
                    deposit: spec_u64_from_le_bytes(s.subrange(65, 73)),
                    rent_amount: spec_u64_from_le_bytes(s.subrange(73, 81)),
                    duration: spec_u64_from_le_bytes(s.subrange(81, 89)),
                    duration_unit: s[89],
                    remaining_payments: spec_u64_from_le_bytes(s.subrange(90, 98)),
                },
            ),
        }
    }
}

pub fn status_byte(s: AgreementStatus) -> (r: u8)
    ensures
        r == spec_status_byte(s),
{
    match s {
        AgreementStatus::Uninitialized => 0,
        AgreementStatus::Active => 1,
        AgreementStatus::Completed => 2,
        AgreementStatus::Terminated => 3,
    }
}

pub fn status_from_byte(b: u8) -> (r: Option<AgreementStatus>)
    ensures
        r == spec_status_from_byte(b),
{
    if b == 0 {
        Some(AgreementStatus::Uninitialized)
    } else if b == 1 {
        Some(AgreementStatus::Active)
    } else if b == 2 {
        Some(AgreementStatus::Completed)
    } else if b == 3 {
        Some(AgreementStatus::Terminated)
    } else {
        None
    }
}

/// Encodes a record into its fixed binary layout; the output always has the
/// fixed size, never more, never less.
pub fn encode_record(rec: &RentalAgreementAccount) -> (out: Vec<u8>)
    ensures
        out@ == spec_encode(rec@),
        out@.len() == RECORD_LEN,
{
    let mut out: Vec<u8> = Vec::new();
    out.push(status_byte(rec.status));
    out.extend_from_slice(array_as_slice(&rec.flat_owner_pubkey.bytes));
    out.extend_from_slice(array_as_slice(&rec.tenant_pubkey.bytes));
    let mut deposit = u64_to_le_bytes(rec.deposit);
    out.append(&mut deposit);
    let mut rent_amount = u64_to_le_bytes(rec.rent_amount);
    out.append(&mut rent_amount);
    let mut duration = u64_to_le_bytes(rec.duration);
    out.append(&mut duration);
    out.push(rec.duration_unit);
    let mut remaining = u64_to_le_bytes(rec.remaining_payments);
    out.append(&mut remaining);
    proof {
        lemma_auto_spec_u64_to_from_le_bytes();
        assert(out@ =~= spec_encode(rec@));
    }
    out
}

/// Decodes a record from a buffer of the fixed layout, rejecting any buffer
/// of the wrong size and any unknown status byte; no partial record is ever
/// returned.
pub fn decode_record(s: &[u8]) -> (r: Option<RentalAgreementAccount>)
    ensures
        match r {
            Some(rec) => spec_decode(s@) == Some(rec@),
            None => spec_decode(s@) is None,
        },
{
    if s.len() != RECORD_LEN {
        return None;
    }
    let status = match status_from_byte(s[0]) {
        Some(st) => st,
        None => {
            return None;
        },
    };
    let rec = RentalAgreementAccount {
        status,
        flat_owner_pubkey: Identity::from_slice(slice_subrange(s, 1, 33)),
        tenant_pubkey: Identity::from_slice(slice_subrange(s, 33, 65)),
        deposit: u64_from_le_bytes(slice_subrange(s, 65, 73)),
        rent_amount: u64_from_le_bytes(slice_subrange(s, 73, 81)),
        duration: u64_from_le_bytes(slice_subrange(s, 81, 89)),
        duration_unit: s[89],
        remaining_payments: u64_from_le_bytes(slice_subrange(s, 90, 98)),
    };
    proof {
        assert(rec@ =~= spec_decode(s@).unwrap());
    }
    Some(rec)
}

/// A decoded record is well formed: its identities have the fixed width.
pub proof fn lemma_decode_wf(s: Seq<u8>)
    requires
        spec_decode(s) is Some,
    ensures
        spec_decode(s).unwrap().wf(),
{
}

/// Encoding inverts decoding: any buffer that decodes is reproduced byte for
/// byte by re-encoding the record it decodes to.
pub proof fn lemma_encode_of_decode(s: Seq<u8>)
    requires
        spec_decode(s) is Some,
    ensures
        spec_encode(spec_decode(s).unwrap()) == s,
{
    lemma_auto_spec_u64_to_from_le_bytes();
    let r = spec_decode(s).unwrap();
    assert(spec_status_byte(r.status) == s[0]);
    assert(spec_encode(r) =~= s);
}

/// Decoding inverts encoding: every well-formed record survives a round trip
/// through its binary form.
pub proof fn lemma_decode_of_encode(r: RecordView)
    requires
        r.wf(),
    ensures
        spec_decode(spec_encode(r)) == Some(r),
{
    lemma_auto_spec_u64_to_from_le_bytes();
    let s = spec_encode(r);
    assert(s.len() == RECORD_LEN);
    assert(s[0] == spec_status_byte(r.status));
    assert(s.subrange(1, 33) =~= r.flat_owner_pubkey);
    assert(s.subrange(33, 65) =~= r.tenant_pubkey);
    assert(s.subrange(65, 73) =~= spec_u64_to_le_bytes(r.deposit));
    assert(s.subrange(73, 81) =~= spec_u64_to_le_bytes(r.rent_amount));
    assert(s.subrange(81, 89) =~= spec_u64_to_le_bytes(r.duration));
    assert(s.subrange(90, 98) =~= spec_u64_to_le_bytes(r.remaining_payments));
    assert(spec_decode(s).unwrap() =~= r);
}

} // verus!
