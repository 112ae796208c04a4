use rental_agreement::codec::{decode_record, encode_record, status_byte, status_from_byte, RECORD_LEN};
use rental_agreement::state::{AgreementStatus, Identity, RentalAgreementAccount};

fn sample_record() -> RentalAgreementAccount {
    RentalAgreementAccount {
        status: AgreementStatus::Active,
        flat_owner_pubkey: Identity::new([1u8; 32]),
        tenant_pubkey: Identity::new([2u8; 32]),
        deposit: 500,
        rent_amount: 100,
        duration: 12,
        duration_unit: 0,
        remaining_payments: 12,
    }
}

#[test]
fn encode_has_fixed_size() {
    let rec = sample_record();
    let bytes = encode_record(&rec);
    assert_eq!(bytes.len(), RECORD_LEN);
    assert_eq!(bytes.len(), 98);
}

#[test]
fn encode_layout_is_densely_packed_little_endian() {
    let rec = sample_record();
    let bytes = encode_record(&rec);
    assert_eq!(bytes[0], 1); // Active
    assert_eq!(&bytes[1..33], &[1u8; 32]);
    assert_eq!(&bytes[33..65], &[2u8; 32]);
    assert_eq!(&bytes[65..73], &500u64.to_le_bytes());
    assert_eq!(&bytes[73..81], &100u64.to_le_bytes());
    assert_eq!(&bytes[81..89], &12u64.to_le_bytes());
    assert_eq!(bytes[89], 0);
    assert_eq!(&bytes[90..98], &12u64.to_le_bytes());
}

#[test]
fn decode_of_encode_round_trip() {
    let rec = sample_record();
    let decoded = decode_record(&encode_record(&rec)).unwrap();
    assert_eq!(decoded, rec);
}

#[test]
fn decode_of_encode_round_trip_extreme_values() {
    let rec = RentalAgreementAccount {
        status: AgreementStatus::Terminated,
        flat_owner_pubkey: Identity::new([0xffu8; 32]),
        tenant_pubkey: Identity::new([0u8; 32]),
        deposit: u64::MAX,
        rent_amount: u64::MAX,
        duration: u64::MAX,
        duration_unit: 255,
        remaining_payments: u64::MAX - 1,
    };
    let decoded = decode_record(&encode_record(&rec)).unwrap();
    assert_eq!(decoded, rec);
}

#[test]
fn encode_of_decode_reproduces_bytes() {
    let mut bytes = vec![0u8; 98];
    bytes[0] = 2; // Completed
    for i in 1..33 {
        bytes[i] = 9;
    }
    for i in 33..65 {
        bytes[i] = 4;
    }
    bytes[65..73].copy_from_slice(&7_000_000u64.to_le_bytes());
    bytes[73..81].copy_from_slice(&123u64.to_le_bytes());
    bytes[81..89].copy_from_slice(&36u64.to_le_bytes());
    bytes[89] = 7; // unit byte is informational: any value round-trips
    // remaining_payments stays zero: exactly what a completed record holds
    let decoded = decode_record(&bytes).unwrap();
    assert_eq!(encode_record(&decoded), bytes);
}

#[test]
fn decode_rejects_wrong_length() {
    assert!(decode_record(&[]).is_none());
    assert!(decode_record(&vec![0u8; 97]).is_none());
    assert!(decode_record(&vec![0u8; 99]).is_none());
    assert!(decode_record(&vec![0u8; 1]).is_none());
}

#[test]
fn decode_rejects_unknown_status_byte() {
    let mut bytes = vec![0u8; 98];
    bytes[0] = 4;
    assert!(decode_record(&bytes).is_none());
    bytes[0] = 255;
    assert!(decode_record(&bytes).is_none());
}

#[test]
fn all_zero_record_decodes_as_uninitialized() {
    let rec = decode_record(&vec![0u8; 98]).unwrap();
    assert_eq!(rec.status, AgreementStatus::Uninitialized);
    assert!(!rec.is_initialized());
    assert_eq!(rec.remaining_payments, 0);
}

#[test]
fn status_bytes_round_trip() {
    for st in [
        AgreementStatus::Uninitialized,
        AgreementStatus::Active,
        AgreementStatus::Completed,
        AgreementStatus::Terminated,
    ] {
        assert_eq!(status_from_byte(status_byte(st)), Some(st));
    }
    assert_eq!(status_from_byte(4), None);
}
