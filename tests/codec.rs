use trusted_properties::error::{ProcessError, TrustedPropertiesError};
use trusted_properties::instruction::TrustedPropertiesInstruction;
use trusted_properties::state::{AgreementStatus, Key, RentAgreementAccount};

fn sample() -> RentAgreementAccount {
    RentAgreementAccount {
        status: AgreementStatus::Active,
        owner_pubkey: Key { bytes: [0x11; 32] },
        tenant_pubkey: Key { bytes: [0x22; 32] },
        security_escrow_pubkey: Key { bytes: [0x33; 32] },
        security_deposit: 0x0102_0304_0506_0708,
        rent_amount: u64::MAX,
        duration: 24,
        remaining_payments: 7,
        start_month: 12,
        start_year: 2021,
        duration_extension_request: 3,
    }
}

#[test]
fn record_layout_matches_borsh() {
    let r = sample();
    let expected = borsh::to_vec(&(
        2u8,
        r.owner_pubkey.bytes,
        r.tenant_pubkey.bytes,
        r.security_escrow_pubkey.bytes,
        r.security_deposit,
        r.rent_amount,
        r.duration,
        r.remaining_payments,
        r.start_month,
        r.start_year,
        r.duration_extension_request,
    ))
    .unwrap();
    assert_eq!(r.pack(), expected);
    assert_eq!(r.pack().len(), 119);
}

#[test]
fn record_layout_exact_bytes() {
    let bytes = sample().pack();
    assert_eq!(bytes[0], 2);
    assert_eq!(&bytes[97..105], &[8, 7, 6, 5, 4, 3, 2, 1]);
    assert_eq!(&bytes[105..113], &[0xff; 8]);
    assert_eq!(bytes[113], 24);
    assert_eq!(bytes[114], 7);
    assert_eq!(bytes[115], 12);
    assert_eq!(&bytes[116..118], &[0xe5, 0x07]);
    assert_eq!(bytes[118], 3);
}

#[test]
fn record_round_trip() {
    let r = sample();
    let back = RentAgreementAccount::unpack(&r.pack()).unwrap();
    assert_eq!(back.pack(), r.pack());
    assert_eq!(back.status, AgreementStatus::Active);
    assert_eq!(back.security_deposit, 0x0102_0304_0506_0708);
    assert_eq!(back.rent_amount, u64::MAX);
    assert_eq!(back.start_year, 2021);
    assert_eq!(back.owner_pubkey, Key { bytes: [0x11; 32] });
}

#[test]
fn record_of_wrong_size_or_status_is_refused() {
    let mut bytes = sample().pack();
    bytes.push(0);
    assert_eq!(RentAgreementAccount::unpack(&bytes).unwrap_err(), ProcessError::InvalidAccountData);
    assert_eq!(RentAgreementAccount::unpack(&[]).unwrap_err(), ProcessError::InvalidAccountData);
    let mut bytes = sample().pack();
    bytes[0] = 200;
    assert_eq!(RentAgreementAccount::unpack(&bytes).unwrap_err(), ProcessError::InvalidAccountData);
    bytes[0] = 4;
    assert_eq!(RentAgreementAccount::unpack(&bytes).unwrap().status, AgreementStatus::Terminated);
}

#[test]
fn status_predicates() {
    let mut r = sample();
    r.status = AgreementStatus::Uninitialized;
    assert!(!r.is_initialized());
    r.status = AgreementStatus::DepositPending;
    assert!(r.is_initialized() && r.is_security_deposit_pending());
    r.status = AgreementStatus::Completed;
    assert!(r.is_completed() && !r.is_terminated());
    r.status = AgreementStatus::Terminated;
    assert!(r.is_terminated() && !r.is_completed());
}

#[test]
fn status_bytes() {
    assert_eq!(AgreementStatus::Completed.to_byte(), 3);
    assert_eq!(AgreementStatus::from_byte(1), Some(AgreementStatus::DepositPending));
    assert_eq!(AgreementStatus::from_byte(5), None);
}

#[test]
fn keys_compare_by_every_byte() {
    let a = Key { bytes: [4; 32] };
    let mut b = Key { bytes: [4; 32] };
    assert_eq!(a, b);
    b.bytes[31] = 5;
    assert_ne!(a, b);
}

#[test]
fn decode_initialize() {
    let mut d = vec![0u8];
    d.extend_from_slice(&[1; 32]);
    d.extend_from_slice(&[2; 32]);
    d.extend_from_slice(&[3; 32]);
    d.extend_from_slice(&500u64.to_le_bytes());
    d.extend_from_slice(&1000u64.to_le_bytes());
    d.extend_from_slice(&[12, 6]);
    d.extend_from_slice(&2024u16.to_le_bytes());
    match TrustedPropertiesInstruction::unpack(&d).unwrap() {
        TrustedPropertiesInstruction::InitializeRentContract {
            owner_pubkey,
            tenant_pubkey,
            security_escrow_pubkey,
            security_deposit,
            rent_amount,
            duration,
            start_month,
            start_year,
        } => {
            assert_eq!(owner_pubkey, Key { bytes: [1; 32] });
            assert_eq!(tenant_pubkey, Key { bytes: [2; 32] });
            assert_eq!(security_escrow_pubkey, Key { bytes: [3; 32] });
            assert_eq!(security_deposit, 500);
            assert_eq!(rent_amount, 1000);
            assert_eq!(duration, 12);
            assert_eq!(start_month, 6);
            assert_eq!(start_year, 2024);
        }
        other => panic!("decoded {:?}", other),
    }
    d.pop();
    assert_eq!(
        TrustedPropertiesInstruction::unpack(&d).unwrap_err(),
        ProcessError::Custom(TrustedPropertiesError::InvalidInstruction)
    );
}

#[test]
fn decode_small_commands() {
    let mut d = vec![2u8];
    d.extend_from_slice(&0x1234u64.to_le_bytes());
    assert!(matches!(
        TrustedPropertiesInstruction::unpack(&d).unwrap(),
        TrustedPropertiesInstruction::PayRent { rent_amount: 0x1234 }
    ));
    d[0] = 1;
    assert!(matches!(
        TrustedPropertiesInstruction::unpack(&d).unwrap(),
        TrustedPropertiesInstruction::DepositSecurity { security_deposit_amount: 0x1234 }
    ));
    assert!(matches!(
        TrustedPropertiesInstruction::unpack(&[3]).unwrap(),
        TrustedPropertiesInstruction::TerminateEarly {}
    ));
    assert!(matches!(
        TrustedPropertiesInstruction::unpack(&[4, 9]).unwrap(),
        TrustedPropertiesInstruction::RequestContractDurationExtension { extension_duration: 9 }
    ));
    assert!(matches!(
        TrustedPropertiesInstruction::unpack(&[5, 9, 0xff]).unwrap(),
        TrustedPropertiesInstruction::ConfirmContractDurationExtension { extension_duration: 9 }
    ));
}

#[test]
fn decode_refuses_unknown_or_short() {
    let invalid = ProcessError::Custom(TrustedPropertiesError::InvalidInstruction);
    assert_eq!(TrustedPropertiesInstruction::unpack(&[]).unwrap_err(), invalid);
    assert_eq!(TrustedPropertiesInstruction::unpack(&[6]).unwrap_err(), invalid);
    assert_eq!(TrustedPropertiesInstruction::unpack(&[4]).unwrap_err(), invalid);
    assert_eq!(TrustedPropertiesInstruction::unpack(&[2, 1, 2, 3, 4, 5, 6, 7]).unwrap_err(), invalid);
}

#[test]
fn error_codes() {
    assert_eq!(TrustedPropertiesError::InvalidInstruction.code(), 0);
    assert_eq!(TrustedPropertiesError::RentAlreadyFullyPaid.code(), 2);
    assert_eq!(TrustedPropertiesError::InvalidInstructionParameter.code(), 6);
    assert_eq!(
        ProcessError::from(TrustedPropertiesError::IncorrectPaymentAmount),
        ProcessError::Custom(TrustedPropertiesError::IncorrectPaymentAmount)
    );
}
