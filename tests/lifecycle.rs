use trusted_properties::error::{ProcessError, TrustedPropertiesError};
use trusted_properties::processor::{AccountView, Outcome, Processor};
use trusted_properties::state::{AgreementStatus, Key, RentAgreementAccount};

const RECORD_LEN: usize = 119;

fn key(b: u8) -> Key {
    Key { bytes: [b; 32] }
}

fn program_id() -> Key {
    key(9)
}

fn owner() -> Key {
    key(1)
}

fn tenant() -> Key {
    key(2)
}

fn escrow() -> Key {
    key(3)
}

fn view(k: Key, owner: Key, is_signer: bool, lamports: u64) -> AccountView {
    AccountView { key: k, owner, is_signer, lamports }
}

fn storage() -> AccountView {
    view(key(10), program_id(), false, 1_000_000)
}

fn system() -> AccountView {
    view(key(0), key(0), false, 0)
}

fn init_data(deposit: u64, rent: u64, duration: u8, month: u8, year: u16) -> Vec<u8> {
    let mut d = vec![0u8];
    d.extend_from_slice(&owner().bytes);
    d.extend_from_slice(&tenant().bytes);
    d.extend_from_slice(&escrow().bytes);
    d.extend_from_slice(&deposit.to_le_bytes());
    d.extend_from_slice(&rent.to_le_bytes());
    d.push(duration);
    d.push(month);
    d.extend_from_slice(&year.to_le_bytes());
    d
}

fn amount_data(tag: u8, amount: u64) -> Vec<u8> {
    let mut d = vec![tag];
    d.extend_from_slice(&amount.to_le_bytes());
    d
}

fn init_accounts() -> Vec<AccountView> {
    vec![storage(), system()]
}

fn deposit_accounts() -> Vec<AccountView> {
    vec![storage(), view(tenant(), key(0), true, 100_000), view(escrow(), program_id(), false, 0), system()]
}

fn rent_accounts() -> Vec<AccountView> {
    vec![storage(), view(tenant(), key(0), true, 100_000), view(owner(), key(0), false, 0), system()]
}

/// Runs a command and stores what it stores.
fn run(data: &mut Vec<u8>, accounts: &[AccountView], ins: &[u8]) -> Result<Outcome, ProcessError> {
    let r = Processor::process(&program_id(), accounts, data, ins, true);
    if let Ok(o) = &r {
        if let Some(rec) = &o.record {
            *data = rec.pack();
        }
    }
    r
}

fn record(data: &[u8]) -> RentAgreementAccount {
    RentAgreementAccount::unpack(data).unwrap()
}

fn active_agreement(duration: u8) -> Vec<u8> {
    let mut data = vec![0u8; RECORD_LEN];
    run(&mut data, &init_accounts(), &init_data(500, 1000, duration, 6, 2024)).unwrap();
    run(&mut data, &deposit_accounts(), &amount_data(1, 500)).unwrap();
    data
}

#[test]
fn full_term_of_rent_payments() {
    let mut data = vec![0u8; RECORD_LEN];
    let o = run(&mut data, &init_accounts(), &init_data(500, 1000, 12, 6, 2024)).unwrap();
    assert!(o.transfer.is_none());
    let rec = record(&data);
    assert_eq!(rec.status, AgreementStatus::DepositPending);
    assert_eq!(rec.remaining_payments, 12);
    assert_eq!(rec.duration, 12);
    assert_eq!(rec.owner_pubkey, owner());
    assert_eq!(rec.tenant_pubkey, tenant());
    assert_eq!(rec.security_escrow_pubkey, escrow());
    assert_eq!(rec.security_deposit, 500);
    assert_eq!(rec.rent_amount, 1000);
    assert_eq!(rec.start_month, 6);
    assert_eq!(rec.start_year, 2024);
    assert_eq!(rec.duration_extension_request, 0);

    let o = run(&mut data, &deposit_accounts(), &amount_data(1, 500)).unwrap();
    let t = o.transfer.unwrap();
    assert_eq!(t.from, tenant());
    assert_eq!(t.to, escrow());
    assert_eq!(t.lamports, 500);
    assert_eq!(record(&data).status, AgreementStatus::Active);

    for paid in 1..=12u8 {
        let o = run(&mut data, &rent_accounts(), &amount_data(2, 1000)).unwrap();
        let t = o.transfer.unwrap();
        assert_eq!(t.from, tenant());
        assert_eq!(t.to, owner());
        assert_eq!(t.lamports, 1000);
        let rec = record(&data);
        assert_eq!(rec.remaining_payments, 12 - paid);
        if paid < 12 {
            assert_eq!(rec.status, AgreementStatus::Active);
        } else {
            assert_eq!(rec.status, AgreementStatus::Completed);
        }
    }

    let before = data.clone();
    let r = run(&mut data, &rent_accounts(), &amount_data(2, 1000));
    assert_eq!(r.unwrap_err(), ProcessError::Custom(TrustedPropertiesError::RentAlreadyFullyPaid));
    assert_eq!(data, before);
}

#[test]
fn extension_handshake() {
    let mut data = active_agreement(12);
    let signer = vec![storage(), view(tenant(), key(0), true, 0)];
    run(&mut data, &signer, &[4, 3]).unwrap();
    assert_eq!(record(&data).duration_extension_request, 3);

    let owner_signs = vec![storage(), view(owner(), key(0), true, 0)];
    let before = data.clone();
    let r = run(&mut data, &owner_signs, &[5, 2]);
    assert_eq!(
        r.unwrap_err(),
        ProcessError::Custom(TrustedPropertiesError::InvalidInstructionParameter)
    );
    assert_eq!(data, before);
    assert_eq!(record(&data).duration_extension_request, 3);

    run(&mut data, &owner_signs, &[5, 3]).unwrap();
    let rec = record(&data);
    assert_eq!(rec.duration, 15);
    assert_eq!(rec.remaining_payments, 15);
    assert_eq!(rec.duration_extension_request, 0);
    assert_eq!(rec.status, AgreementStatus::Active);
}

#[test]
fn second_initialize_is_refused() {
    let mut data = vec![0u8; RECORD_LEN];
    run(&mut data, &init_accounts(), &init_data(500, 1000, 12, 6, 2024)).unwrap();
    let before = data.clone();
    let r = run(&mut data, &init_accounts(), &init_data(1, 2, 3, 4, 5));
    assert_eq!(r.unwrap_err(), ProcessError::AccountAlreadyInitialized);
    assert_eq!(data, before);
}

#[test]
fn deposit_needs_pending_status_and_exact_amount() {
    let mut data = vec![0u8; RECORD_LEN];
    run(&mut data, &init_accounts(), &init_data(500, 1000, 12, 6, 2024)).unwrap();
    let r = run(&mut data, &deposit_accounts(), &amount_data(1, 499));
    assert_eq!(r.unwrap_err(), ProcessError::Custom(TrustedPropertiesError::IncorrectPaymentAmount));
    let r = run(&mut data, &deposit_accounts(), &amount_data(1, 501));
    assert_eq!(r.unwrap_err(), ProcessError::Custom(TrustedPropertiesError::IncorrectPaymentAmount));
    run(&mut data, &deposit_accounts(), &amount_data(1, 500)).unwrap();
    let r = run(&mut data, &deposit_accounts(), &amount_data(1, 500));
    assert_eq!(
        r.unwrap_err(),
        ProcessError::Custom(TrustedPropertiesError::SecurityAlreadyDeposited)
    );
}

#[test]
fn deposit_from_escrow_itself_changes_nothing() {
    let mut data = vec![0u8; RECORD_LEN];
    run(&mut data, &init_accounts(), &init_data(500, 1000, 12, 6, 2024)).unwrap();
    let mut accounts = deposit_accounts();
    accounts[1].key = escrow();
    let o = run(&mut data, &accounts, &amount_data(1, 500)).unwrap();
    assert!(o.record.is_none());
    assert!(o.transfer.is_none());
    assert_eq!(record(&data).status, AgreementStatus::DepositPending);
}

#[test]
fn rent_to_self_changes_nothing() {
    let mut data = active_agreement(12);
    let mut accounts = rent_accounts();
    accounts[2].key = tenant();
    let o = run(&mut data, &accounts, &amount_data(2, 1000)).unwrap();
    assert!(o.record.is_none());
    assert!(o.transfer.is_none());
    assert_eq!(record(&data).remaining_payments, 12);
}

#[test]
fn rent_of_wrong_amount_is_refused() {
    let mut data = active_agreement(12);
    let r = run(&mut data, &rent_accounts(), &amount_data(2, 999));
    assert_eq!(r.unwrap_err(), ProcessError::Custom(TrustedPropertiesError::IncorrectPaymentAmount));
    assert_eq!(record(&data).remaining_payments, 12);
}

#[test]
fn rent_to_another_owner_is_refused() {
    let mut data = active_agreement(12);
    let mut accounts = rent_accounts();
    accounts[2].key = key(7);
    let r = run(&mut data, &accounts, &amount_data(2, 1000));
    assert_eq!(r.unwrap_err(), ProcessError::InvalidAccountData);
}

#[test]
fn deposit_to_another_escrow_is_refused() {
    let mut data = vec![0u8; RECORD_LEN];
    run(&mut data, &init_accounts(), &init_data(500, 1000, 12, 6, 2024)).unwrap();
    let mut accounts = deposit_accounts();
    accounts[2].key = key(7);
    let r = run(&mut data, &accounts, &amount_data(1, 500));
    assert_eq!(r.unwrap_err(), ProcessError::InvalidAccountData);
}

#[test]
fn rent_with_no_payment_due_is_refused() {
    let mut data = vec![0u8; RECORD_LEN];
    run(&mut data, &init_accounts(), &init_data(500, 1000, 0, 6, 2024)).unwrap();
    let r = run(&mut data, &rent_accounts(), &amount_data(2, 1000));
    assert_eq!(r.unwrap_err(), ProcessError::Custom(TrustedPropertiesError::RentAlreadyFullyPaid));
    assert_eq!(record(&data).remaining_payments, 0);
}

#[test]
fn terminate_early_then_again() {
    let mut data = active_agreement(12);
    run(&mut data, &rent_accounts(), &amount_data(2, 1000)).unwrap();
    let o = run(&mut data, &[storage()], &[3]).unwrap();
    assert!(o.transfer.is_none());
    let rec = record(&data);
    assert_eq!(rec.status, AgreementStatus::Terminated);
    assert_eq!(rec.remaining_payments, 0);
    let before = data.clone();
    let r = run(&mut data, &[storage()], &[3]);
    assert_eq!(
        r.unwrap_err(),
        ProcessError::Custom(TrustedPropertiesError::RentAgreementTerminated)
    );
    assert_eq!(data, before);
    let r = run(&mut data, &rent_accounts(), &amount_data(2, 1000));
    assert_eq!(
        r.unwrap_err(),
        ProcessError::Custom(TrustedPropertiesError::RentAgreementTerminated)
    );
}

#[test]
fn terminate_while_deposit_pending() {
    let mut data = vec![0u8; RECORD_LEN];
    run(&mut data, &init_accounts(), &init_data(500, 1000, 12, 6, 2024)).unwrap();
    run(&mut data, &[storage()], &[3]).unwrap();
    assert_eq!(record(&data).status, AgreementStatus::Terminated);
}

#[test]
fn terminate_completed_is_refused() {
    let mut data = active_agreement(1);
    run(&mut data, &rent_accounts(), &amount_data(2, 1000)).unwrap();
    assert_eq!(record(&data).status, AgreementStatus::Completed);
    let r = run(&mut data, &[storage()], &[3]);
    assert_eq!(r.unwrap_err(), ProcessError::Custom(TrustedPropertiesError::RentAlreadyFullyPaid));
}

#[test]
fn extension_needs_active_agreement() {
    let mut data = vec![0u8; RECORD_LEN];
    run(&mut data, &init_accounts(), &init_data(500, 1000, 12, 6, 2024)).unwrap();
    let signer = vec![storage(), view(tenant(), key(0), true, 0)];
    let r = run(&mut data, &signer, &[4, 3]);
    assert_eq!(r.unwrap_err(), ProcessError::Custom(TrustedPropertiesError::InvalidAgreementStatus));
    let r = run(&mut data, &signer, &[5, 0]);
    assert_eq!(r.unwrap_err(), ProcessError::Custom(TrustedPropertiesError::InvalidAgreementStatus));
}

#[test]
fn extension_past_largest_duration_is_refused() {
    let mut data = active_agreement(250);
    let signer = vec![storage(), view(tenant(), key(0), true, 0)];
    run(&mut data, &signer, &[4, 6]).unwrap();
    let before = data.clone();
    let r = run(&mut data, &signer, &[5, 6]);
    assert_eq!(r.unwrap_err(), ProcessError::ArithmeticOverflow);
    assert_eq!(data, before);
    run(&mut data, &signer, &[4, 5]).unwrap();
    run(&mut data, &signer, &[5, 5]).unwrap();
    assert_eq!(record(&data).duration, 255);
}

#[test]
fn extension_needs_a_signer() {
    let mut data = active_agreement(12);
    let unsigned = vec![storage(), view(tenant(), key(0), false, 0)];
    assert_eq!(run(&mut data, &unsigned, &[4, 3]).unwrap_err(), ProcessError::MissingRequiredSignature);
    assert_eq!(run(&mut data, &unsigned, &[5, 0]).unwrap_err(), ProcessError::MissingRequiredSignature);
}

#[test]
fn storage_of_another_program_is_refused() {
    let mut data = vec![0u8; RECORD_LEN];
    let accounts = vec![view(key(10), key(8), false, 0), system()];
    let r = run(&mut data, &accounts, &init_data(500, 1000, 12, 6, 2024));
    assert_eq!(r.unwrap_err(), ProcessError::IncorrectProgramId);
}

#[test]
fn missing_accounts_are_refused() {
    let mut data = vec![0u8; RECORD_LEN];
    assert_eq!(run(&mut data, &[], &[3]).unwrap_err(), ProcessError::NotEnoughAccountKeys);
    let r = run(&mut data, &[storage()], &init_data(500, 1000, 12, 6, 2024));
    assert_eq!(r.unwrap_err(), ProcessError::NotEnoughAccountKeys);
    let r = run(&mut data, &[storage(), system(), system()], &amount_data(2, 1000));
    assert_eq!(r.unwrap_err(), ProcessError::NotEnoughAccountKeys);
}

#[test]
fn underfunded_storage_is_refused() {
    let data = vec![0u8; RECORD_LEN];
    let r = Processor::process(&program_id(), &init_accounts(), &data, &init_data(500, 1000, 12, 6, 2024), false);
    assert_eq!(r.unwrap_err(), ProcessError::AccountNotRentExempt);
}

#[test]
fn malformed_record_is_refused() {
    let mut short = vec![0u8; RECORD_LEN - 1];
    let r = run(&mut short, &init_accounts(), &init_data(500, 1000, 12, 6, 2024));
    assert_eq!(r.unwrap_err(), ProcessError::InvalidAccountData);
    let mut bad_status = vec![0u8; RECORD_LEN];
    bad_status[0] = 5;
    let r = run(&mut bad_status, &[storage()], &[3]);
    assert_eq!(r.unwrap_err(), ProcessError::InvalidAccountData);
}

#[test]
fn uninitialized_record_is_refused() {
    let mut data = vec![0u8; RECORD_LEN];
    assert_eq!(run(&mut data, &[storage()], &[3]).unwrap_err(), ProcessError::UninitializedAccount);
    let r = run(&mut data, &rent_accounts(), &amount_data(2, 1000));
    assert_eq!(r.unwrap_err(), ProcessError::UninitializedAccount);
}

#[test]
fn unsigned_or_poor_tenant_is_refused() {
    let mut data = active_agreement(12);
    let mut accounts = rent_accounts();
    accounts[1].is_signer = false;
    assert_eq!(
        run(&mut data, &accounts, &amount_data(2, 1000)).unwrap_err(),
        ProcessError::MissingRequiredSignature
    );
    let mut accounts = rent_accounts();
    accounts[1].lamports = 999;
    assert_eq!(run(&mut data, &accounts, &amount_data(2, 1000)).unwrap_err(), ProcessError::InsufficientFunds);
}
