use rental_agreement::error::ProcessError;
use rental_agreement::instruction::RentalInstruction;
use rental_agreement::state::Identity;

fn initialization_bytes(
    payee: [u8; 32],
    payer: [u8; 32],
    deposit: u64,
    rent_amount: u64,
    duration: u64,
    duration_unit: u8,
) -> Vec<u8> {
    let mut bytes = vec![0u8];
    bytes.extend_from_slice(&payee);
    bytes.extend_from_slice(&payer);
    bytes.extend_from_slice(&deposit.to_le_bytes());
    bytes.extend_from_slice(&rent_amount.to_le_bytes());
    bytes.extend_from_slice(&duration.to_le_bytes());
    bytes.push(duration_unit);
    bytes
}

#[test]
fn unpack_initialization() {
    let bytes = initialization_bytes([1; 32], [2; 32], 500, 100, 12, 0);
    assert_eq!(bytes.len(), 90);
    match RentalInstruction::unpack(&bytes) {
        Ok(RentalInstruction::Initialization {
            flat_owner_pubkey,
            tenant_pubkey,
            deposit,
            rent_amount,
            duration,
            duration_unit,
        }) => {
            assert_eq!(flat_owner_pubkey, Identity::new([1; 32]));
            assert_eq!(tenant_pubkey, Identity::new([2; 32]));
            assert_eq!(deposit, 500);
            assert_eq!(rent_amount, 100);
            assert_eq!(duration, 12);
            assert_eq!(duration_unit, 0);
        },
        other => panic!("expected an initialization, got {:?}", other),
    }
}

#[test]
fn unpack_initialization_truncated() {
    let mut bytes = initialization_bytes([1; 32], [2; 32], 500, 100, 12, 0);
    bytes.pop();
    assert!(matches!(
        RentalInstruction::unpack(&bytes),
        Err(ProcessError::InvalidInstructionData)
    ));
    assert!(matches!(
        RentalInstruction::unpack(&[0u8]),
        Err(ProcessError::InvalidInstructionData)
    ));
}

#[test]
fn unpack_payment() {
    let mut bytes = vec![1u8];
    bytes.extend_from_slice(&777u64.to_le_bytes());
    match RentalInstruction::unpack(&bytes) {
        Ok(RentalInstruction::Payment { rent_amount }) => assert_eq!(rent_amount, 777),
        other => panic!("expected a payment, got {:?}", other),
    }
}

#[test]
fn unpack_payment_truncated() {
    let mut bytes = vec![1u8];
    bytes.extend_from_slice(&[0u8; 7]);
    assert!(matches!(
        RentalInstruction::unpack(&bytes),
        Err(ProcessError::InvalidInstructionData)
    ));
}

#[test]
fn unpack_termination() {
    assert!(matches!(
        RentalInstruction::unpack(&[2u8]),
        Ok(RentalInstruction::TerminationBeforeInitialDate {})
    ));
}

#[test]
fn unpack_rejects_empty_input() {
    assert!(matches!(
        RentalInstruction::unpack(&[]),
        Err(ProcessError::InvalidInstructionData)
    ));
}

#[test]
fn unpack_rejects_unknown_tag() {
    assert!(matches!(
        RentalInstruction::unpack(&[3u8, 0, 0, 0, 0, 0, 0, 0, 0]),
        Err(ProcessError::InvalidInstructionData)
    ));
    assert!(matches!(
        RentalInstruction::unpack(&[255u8]),
        Err(ProcessError::InvalidInstructionData)
    ));
}

#[test]
fn unpack_ignores_trailing_bytes() {
    let mut bytes = vec![1u8];
    bytes.extend_from_slice(&50u64.to_le_bytes());
    bytes.extend_from_slice(&[9u8; 4]);
    match RentalInstruction::unpack(&bytes) {
        Ok(RentalInstruction::Payment { rent_amount }) => assert_eq!(rent_amount, 50),
        other => panic!("expected a payment, got {:?}", other),
    }
}
