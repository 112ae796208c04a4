//! Decoder for the instruction wire format: an untrusted, variable-length
//! byte buffer becomes exactly one of three typed instructions, or fails with
//! a single uniform malformed-instruction outcome. The first byte is a
//! discriminant tag; the remaining bytes are tag-specific fields, all
//! little-endian fixed-width integers and fixed-size identities, densely
//! packed with no padding.

use vstd::prelude::*;
use vstd::bytes::{spec_u64_from_le_bytes, u64_from_le_bytes};
use vstd::slice::slice_subrange;
use crate::error::ProcessError;
use crate::state::Identity;

verus! {

/// One decoded instruction.
#[derive(Clone, Copy, Debug)]
pub enum RentalInstruction {
    /// Start the agreement with the agreed terms and persist the initial
    /// state in the agreement record.
    Initialization {
        flat_owner_pubkey: Identity,
        tenant_pubkey: Identity,
        deposit: u64,
        rent_amount: u64,
        duration: u64,
        duration_unit: u8,
    },
    /// Pay one period's rent from the tenant to the flat owner.
    Payment { rent_amount: u64 },
    /// End the agreement early, before its agreed end.
    TerminationBeforeInitialDate {},
}

/// Mathematical model of an instruction, identities as byte sequences.
pub enum InstructionView {
    Initialization {
        flat_owner_pubkey: Seq<u8>,
        tenant_pubkey: Seq<u8>,
        deposit: u64,
        rent_amount: u64,
        duration: u64,
        duration_unit: u8,
    },
    Payment { rent_amount: u64 },
    TerminationBeforeInitialDate {},
}

impl View for RentalInstruction {
    type V = InstructionView;

    open spec fn view(&self) -> InstructionView {
        match self {
            RentalInstruction::Initialization {
                flat_owner_pubkey,
                tenant_pubkey,
                deposit,
                rent_amount,
                duration,
                duration_unit,
            } => InstructionView::Initialization {
                flat_owner_pubkey: flat_owner_pubkey@,
                tenant_pubkey: tenant_pubkey@,
                deposit: *deposit,
                rent_amount: *rent_amount,
                duration: *duration,
                duration_unit: *duration_unit,
            },
            RentalInstruction::Payment { rent_amount } => InstructionView::Payment {
                rent_amount: *rent_amount,
            },
            RentalInstruction::TerminationBeforeInitialDate {  } => {
                InstructionView::TerminationBeforeInitialDate {  }
            },
        }
    }
}

/// The instruction a byte buffer decodes to. Tag 0 asks for at least 89
/// bytes after the tag (two identities, three 64-bit amounts, one unit
/// byte), tag 1 for at least 8 (one 64-bit amount), tag 2 for none; any
/// other tag, or a buffer too short for its tag, is malformed.
pub open spec fn spec_unpack(s: Seq<u8>) -> Result<InstructionView, ProcessError> {
    if s.len() < 1 {
        Err(ProcessError::InvalidInstructionData)
    } else if s[0] == 0 {
        if s.len() >= 90 {
            Ok(
                InstructionView::Initialization {
                    flat_owner_pubkey: s.subrange(1, 33),
                    tenant_pubkey: s.subrange(33, 65),
                    deposit: spec_u64_from_le_bytes(s.subrange(65, 73)),
                    rent_amount: spec_u64_from_le_bytes(s.subrange(73, 81)),
                    duration: spec_u64_from_le_bytes(s.subrange(81, 89)),
                    duration_unit: s[89],
                },
            )
        } else {
            Err(ProcessError::InvalidInstructionData)
        }
    } else if s[0] == 1 {
        if s.len() >= 9 {
            Ok(InstructionView::Payment { rent_amount: spec_u64_from_le_bytes(s.subrange(1, 9)) })
        } else {
            Err(ProcessError::InvalidInstructionData)
        }
    } else if s[0] == 2 {
        Ok(InstructionView::TerminationBeforeInitialDate {  })
    } else {
        Err(ProcessError::InvalidInstructionData)
    }
}

/// The model of an unpack outcome.
pub open spec fn unpack_result_view(r: Result<RentalInstruction, ProcessError>) -> Result<
    InstructionView,
    ProcessError,
> {
    match r {
        Ok(i) => Ok(i@),
        Err(e) => Err(e),
    }
}

impl RentalInstruction {
    /// Parses an untrusted byte buffer into an instruction; a pure parse
    /// with no side effects, failing on any unknown tag or truncated
    /// payload.
    pub fn unpack(input: &[u8]) -> (r: Result<RentalInstruction, ProcessError>)
        ensures
            unpack_result_view(r) == spec_unpack(input@),
    {
        if input.len() < 1 {
            return Err(ProcessError::InvalidInstructionData);
        }
        let tag = input[0];
        if tag == 0 {
            if input.len() < 90 {
                return Err(ProcessError::InvalidInstructionData);
            }
            Ok(
                RentalInstruction::Initialization {
                    flat_owner_pubkey: Identity::from_slice(slice_subrange(input, 1, 33)),
                    tenant_pubkey: Identity::from_slice(slice_subrange(input, 33, 65)),
                    deposit: u64_from_le_bytes(slice_subrange(input, 65, 73)),
                    rent_amount: u64_from_le_bytes(slice_subrange(input, 73, 81)),
                    duration: u64_from_le_bytes(slice_subrange(input, 81, 89)),
                    duration_unit: input[89],
                },
            )
        } else if tag == 1 {
            if input.len() < 9 {
                return Err(ProcessError::InvalidInstructionData);
            }
            Ok(RentalInstruction::Payment {
                rent_amount: u64_from_le_bytes(slice_subrange(input, 1, 9)),
            })
        } else if tag == 2 {
            Ok(RentalInstruction::TerminationBeforeInitialDate {  })
        } else {
            Err(ProcessError::InvalidInstructionData)
        }
    }
}

} // verus!
