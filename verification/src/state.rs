//! The agreement record: the durable state of one rental agreement, together
//! with its mathematical model and its status queries.

use vstd::prelude::*;

verus! {

/// An opaque fixed-size public identifier for a party (payer or payee).
/// Signature verification against it is an external concern; the core only
/// ever compares identities for equality.
#[derive(Clone, Copy, Debug, PartialEq, Eq)]
pub struct Identity {
    pub bytes: [u8; 32],
}

impl View for Identity {
    type V = Seq<u8>;

    open spec fn view(&self) -> Seq<u8> {
        self.bytes@
    }
}

impl Identity {
    pub fn new(bytes: [u8; 32]) -> (r: Identity)
        ensures
            r@ == bytes@,
    {
        Identity { bytes }
    }

    /// Reads an identity out of a 32-byte slice.
    pub fn from_slice(s: &[u8]) -> (r: Identity)
        requires
            s@.len() == 32,
        ensures
            r@ == s@,
    {
        let mut bytes: [u8; 32] = [0u8; 32];
        let mut i: usize = 0;
        while i < 32
            invariant
                i <= 32,
                s@.len() == 32,
                forall|j: int| 0 <= j < i ==> bytes@[j] == s@[j],
            decreases 32 - i,
        {
            bytes[i] = s[i];
            i = i + 1;
        }
        proof {
            assert(bytes@ =~= s@);
        }
        Identity { bytes }
    }

    /// Equality of identities, byte for byte.
    pub fn same_as(&self, other: &Identity) -> (r: bool)
        ensures
            r == (self@ == other@),
    {
        let mut i: usize = 0;
        while i < 32
            invariant
                i <= 32,
                forall|j: int| 0 <= j < i ==> self.bytes@[j] == other.bytes@[j],
            decreases 32 - i,
        {
            if self.bytes[i] != other.bytes[i] {
                return false;
            }
            i = i + 1;
        }
        proof {
            assert(self@ =~= other@);
        }
        true
    }
}

/// Lifecycle state of an agreement. It only ever advances
/// Uninitialized -> Active -> (Completed | Terminated); the two final states
/// are terminal and mutually exclusive.
#[derive(Clone, Copy, Debug, PartialEq, Eq, Structural)]
pub enum AgreementStatus {
    Uninitialized,
    Active,
    Completed,
    Terminated,
}

/// Granularity of a payment period. Informational only: no timing logic in
/// this core reads it.
#[derive(Clone, Copy, Debug, PartialEq, Eq, Structural)]
pub enum Duration {
    Months,
}

/// Wire tag of a period granularity.
pub open spec fn spec_duration_tag(d: Duration) -> u8 {
    match d {
        Duration::Months => 0,
    }
}

impl Duration {
    pub fn tag(&self) -> (r: u8)
        ensures
            r == spec_duration_tag(*self),
    {
        match self {
            Duration::Months => 0,
        }
    }
}

/// Mathematical model of a persisted agreement record: identities as byte
/// sequences, everything else as plain values.
#[verifier::ext_equal]
pub struct RecordView {
    pub status: AgreementStatus,
    pub flat_owner_pubkey: Seq<u8>,
    pub tenant_pubkey: Seq<u8>,
    pub deposit: u64,
    pub rent_amount: u64,
    pub duration: u64,
    pub duration_unit: u8,
    pub remaining_payments: u64,
}

impl RecordView {
    /// Both identities have the fixed identifier width.
    pub open spec fn wf(self) -> bool {
        self.flat_owner_pubkey.len() == 32 && self.tenant_pubkey.len() == 32
    }

    pub open spec fn is_initialized(self) -> bool {
        !(self.status is Uninitialized)
    }

    pub open spec fn is_complete(self) -> bool {
        self.status is Completed
    }

    pub open spec fn is_terminated(self) -> bool {
        self.status is Terminated
    }
}

/// The persisted agreement record: parties, terms, and progress of one
/// rental agreement.
#[derive(Clone, Copy, Debug, PartialEq, Eq)]
pub struct RentalAgreementAccount {
    pub status: AgreementStatus,
    pub flat_owner_pubkey: Identity,
    pub tenant_pubkey: Identity,
    pub deposit: u64,
    pub rent_amount: u64,
    pub duration: u64,
    pub duration_unit: u8,
    pub remaining_payments: u64,
}

impl View for RentalAgreementAccount {
    type V = RecordView;

    open spec fn view(&self) -> RecordView {
        RecordView {
            status: self.status,
            flat_owner_pubkey: self.flat_owner_pubkey@,
            tenant_pubkey: self.tenant_pubkey@,
            deposit: self.deposit,
            rent_amount: self.rent_amount,
            duration: self.duration,
            duration_unit: self.duration_unit,
            remaining_payments: self.remaining_payments,
        }
    }
}

impl RentalAgreementAccount {
    /// An agreement exists in this record: it has left the all-zero state.
    pub fn is_initialized(&self) -> (r: bool)
        ensures
            r == self@.is_initialized(),
    {
        !(matches!(self.status, AgreementStatus::Uninitialized))
    }

    /// Every agreed payment has been made.
    pub fn is_complete(&self) -> (r: bool)
        ensures
            r == self@.is_complete(),
    {
        matches!(self.status, AgreementStatus::Completed)
    }

    /// The agreement was ended early.
    pub fn is_terminated(&self) -> (r: bool)
        ensures
            r == self@.is_terminated(),
    {
        matches!(self.status, AgreementStatus::Terminated)
    }
}

} // verus!
