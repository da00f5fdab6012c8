//! Properties of the agreement lifecycle that hold over sequences of
//! operations or over every input, proved from the operations' rules.

use vstd::prelude::*;
use crate::codec::{lemma_parse_record_bytes, record_bytes};
use crate::error::{ProcessError, TrustedPropertiesError};
use crate::processor::{
    accounts_error,
    command_rule,
    confirm_extension_rule,
    deposit_security_rule,
    initialize_rule,
    no_effect,
    pay_rent_rule,
    store_only,
    stored_record,
    terminate_early_rule,
    AccountView,
    Outcome,
    Transfer,
};
use crate::instruction::TrustedPropertiesInstruction;
use crate::state::{AgreementStatus, Key, RentAgreementAccount};

verus! {

/// A record is initialized at most once: after an initialization has
/// succeeded, initializing the stored record again, on any terms, fails with
/// `AccountAlreadyInitialized` and so stores nothing.
pub proof fn lemma_initialize_only_once(
    program_id: Key,
    accounts: Seq<AccountView>,
    data: Seq<u8>,
    storage_funded: bool,
    owner_pubkey: Key,
    tenant_pubkey: Key,
    security_escrow_pubkey: Key,
    security_deposit: u64,
    rent_amount: u64,
    duration: u8,
    start_month: u8,
    start_year: u16,
    again_owner_pubkey: Key,
    again_tenant_pubkey: Key,
    again_security_escrow_pubkey: Key,
    again_security_deposit: u64,
    again_rent_amount: u64,
    again_duration: u8,
    again_start_month: u8,
    again_start_year: u16,
)
    requires
        initialize_rule(
            program_id,
            accounts,
            data,
            storage_funded,
            owner_pubkey,
            tenant_pubkey,
            security_escrow_pubkey,
            security_deposit,
            rent_amount,
            duration,
            start_month,
            start_year,
        ) is Ok,
    ensures
        ({
            let first = initialize_rule(
                program_id,
                accounts,
                data,
                storage_funded,
                owner_pubkey,
                tenant_pubkey,
                security_escrow_pubkey,
                security_deposit,
                rent_amount,
                duration,
                start_month,
                start_year,
            )->Ok_0;
            &&& first.record is Some
            &&& initialize_rule(
                program_id,
                accounts,
                record_bytes(first.record->Some_0),
                storage_funded,
                again_owner_pubkey,
                again_tenant_pubkey,
                again_security_escrow_pubkey,
                again_security_deposit,
                again_rent_amount,
                again_duration,
                again_start_month,
                again_start_year,
            ) == Err::<Outcome, ProcessError>(ProcessError::AccountAlreadyInitialized)
        }),
{
    let first = initialize_rule(
        program_id,
        accounts,
        data,
        storage_funded,
        owner_pubkey,
        tenant_pubkey,
        security_escrow_pubkey,
        security_deposit,
        rent_amount,
        duration,
        start_month,
        start_year,
    )->Ok_0;
    lemma_parse_record_bytes(first.record->Some_0);
}

/// Past the checks on accounts, signature, funds and the stored record, and
/// with tenant and escrow distinct accounts, a security deposit succeeds
/// exactly when the agreement awaits its deposit and the amount is the agreed
/// one; it then makes the agreement active and moves that amount from tenant
/// to escrow, and changes nothing else.
pub proof fn lemma_deposit_succeeds_iff(
    program_id: Key,
    accounts: Seq<AccountView>,
    data: Seq<u8>,
    amount: u64,
)
    requires
        accounts_error(program_id, accounts, 4) is None,
        accounts[1].is_signer,
        accounts[1].lamports >= amount,
        accounts[1].key@ != accounts[2].key@,
        stored_record(data) is Ok,
        stored_record(data)->Ok_0.security_escrow_pubkey@ == accounts[2].key@,
    ensures
        ({
            let rec = stored_record(data)->Ok_0;
            let r = deposit_security_rule(program_id, accounts, data, amount);
            &&& r is Ok <==> (rec.status == AgreementStatus::DepositPending && amount
                == rec.security_deposit)
            &&& r is Ok ==> r->Ok_0 == (Outcome {
                record: Some(RentAgreementAccount { status: AgreementStatus::Active, ..rec }),
                transfer: Some(
                    Transfer { from: accounts[1].key, to: accounts[2].key, lamports: amount },
                ),
            })
        }),
{
}

/// When tenant and escrow are the same account, a deposit that passes the
/// checks on accounts, signature and funds succeeds and changes nothing: no
/// transfer, and the status stays as it was.
pub proof fn lemma_deposit_to_self_changes_nothing(
    program_id: Key,
    accounts: Seq<AccountView>,
    data: Seq<u8>,
    amount: u64,
)
    requires
        accounts_error(program_id, accounts, 4) is None,
        accounts[1].is_signer,
        accounts[1].lamports >= amount,
        accounts[1].key@ == accounts[2].key@,
    ensures
        deposit_security_rule(program_id, accounts, data, amount) == Ok::<Outcome, ProcessError>(
            no_effect(),
        ),
{
}

/// With tenant and owner distinct accounts, each successful rent payment
/// lowers the payments due by exactly one, from at least one; the agreement
/// is completed exactly when none is left due; and a completed or terminated
/// agreement refuses payment.
pub proof fn lemma_pay_rent_counts_down(
    program_id: Key,
    accounts: Seq<AccountView>,
    data: Seq<u8>,
    amount: u64,
)
    requires
        accounts.len() >= 4 ==> accounts[1].key@ != accounts[2].key@,
    ensures
        ({
            let r = pay_rent_rule(program_id, accounts, data, amount);
            &&& r is Ok ==> {
                &&& stored_record(data) is Ok
                &&& r->Ok_0.record is Some
                &&& stored_record(data)->Ok_0.remaining_payments >= 1
                &&& r->Ok_0.record->Some_0.remaining_payments == stored_record(
                    data,
                )->Ok_0.remaining_payments - 1
                &&& (r->Ok_0.record->Some_0.status == AgreementStatus::Completed)
                    == (r->Ok_0.record->Some_0.remaining_payments == 0)
            }
            &&& (stored_record(data) is Ok && (stored_record(data)->Ok_0.status
                == AgreementStatus::Completed || stored_record(data)->Ok_0.status
                == AgreementStatus::Terminated)) ==> r is Err
        }),
{
}

/// From a live status, early termination succeeds, leaves no payment due and
/// marks the agreement terminated; terminating the stored result again fails
/// with `RentAgreementTerminated`.
pub proof fn lemma_terminate_once(program_id: Key, accounts: Seq<AccountView>, data: Seq<u8>)
    requires
        accounts_error(program_id, accounts, 1) is None,
        stored_record(data) is Ok,
        stored_record(data)->Ok_0.status == AgreementStatus::DepositPending || stored_record(
            data,
        )->Ok_0.status == AgreementStatus::Active,
    ensures
        ({
            let r = terminate_early_rule(program_id, accounts, data);
            &&& r is Ok
            &&& r->Ok_0.transfer is None
            &&& r->Ok_0.record is Some
            &&& r->Ok_0.record->Some_0.remaining_payments == 0
            &&& r->Ok_0.record->Some_0.status == AgreementStatus::Terminated
            &&& terminate_early_rule(program_id, accounts, record_bytes(r->Ok_0.record->Some_0))
                == Err::<Outcome, ProcessError>(
                ProcessError::Custom(TrustedPropertiesError::RentAgreementTerminated),
            )
        }),
{
    let r = terminate_early_rule(program_id, accounts, data);
    lemma_parse_record_bytes(r->Ok_0.record->Some_0);
}

/// Early termination of a completed agreement fails with
/// `RentAlreadyFullyPaid`, and of a terminated one with
/// `RentAgreementTerminated`.
pub proof fn lemma_terminate_refused_when_final(
    program_id: Key,
    accounts: Seq<AccountView>,
    data: Seq<u8>,
)
    requires
        accounts_error(program_id, accounts, 1) is None,
        stored_record(data) is Ok,
    ensures
        stored_record(data)->Ok_0.status == AgreementStatus::Completed ==> terminate_early_rule(
            program_id,
            accounts,
            data,
        ) == Err::<Outcome, ProcessError>(
            ProcessError::Custom(TrustedPropertiesError::RentAlreadyFullyPaid),
        ),
        stored_record(data)->Ok_0.status == AgreementStatus::Terminated ==> terminate_early_rule(
            program_id,
            accounts,
            data,
        ) == Err::<Outcome, ProcessError>(
            ProcessError::Custom(TrustedPropertiesError::RentAgreementTerminated),
        ),
{
}

/// For an active agreement, past the checks on accounts, signature and the
/// stored record, confirming an extension succeeds exactly when it equals
/// the pending request. A mismatch fails with `InvalidInstructionParameter`
/// and stores nothing; a match adds the extension to the duration and to the
/// payments due and clears the request. A matching extension is taken to fit
/// both counters.
pub proof fn lemma_confirm_extension_iff(
    program_id: Key,
    accounts: Seq<AccountView>,
    data: Seq<u8>,
    extension: u8,
)
    requires
        accounts_error(program_id, accounts, 2) is None,
        accounts[1].is_signer,
        stored_record(data) is Ok,
        stored_record(data)->Ok_0.status == AgreementStatus::Active,
        extension == stored_record(data)->Ok_0.duration_extension_request ==> {
            &&& stored_record(data)->Ok_0.duration + extension <= 255
            &&& stored_record(data)->Ok_0.remaining_payments + extension <= 255
        },
    ensures
        ({
            let rec = stored_record(data)->Ok_0;
            let r = confirm_extension_rule(program_id, accounts, data, extension);
            &&& r is Ok <==> extension == rec.duration_extension_request
            &&& extension != rec.duration_extension_request ==> r == Err::<Outcome, ProcessError>(
                ProcessError::Custom(TrustedPropertiesError::InvalidInstructionParameter),
            )
            &&& r is Ok ==> r->Ok_0 == store_only(
                RentAgreementAccount {
                    duration: (rec.duration + extension) as u8,
                    remaining_payments: (rec.remaining_payments + extension) as u8,
                    duration_extension_request: 0,
                    ..rec
                },
            )
        }),
{
}

/// Whether no more payments are due than the agreement's duration.
pub open spec fn payments_within_duration(rec: RentAgreementAccount) -> bool {
    rec.remaining_payments <= rec.duration
}

/// Every command keeps the payments due within the duration: a record that
/// any successful command stores satisfies it whenever the record it started
/// from did.
pub proof fn lemma_commands_keep_payments_within_duration(
    program_id: Key,
    accounts: Seq<AccountView>,
    data: Seq<u8>,
    storage_funded: bool,
    ins: TrustedPropertiesInstruction,
)
    requires
        stored_record(data) is Ok ==> payments_within_duration(stored_record(data)->Ok_0),
    ensures
        ({
            let r = command_rule(program_id, accounts, data, storage_funded, ins);
            (r is Ok && r->Ok_0.record is Some) ==> payments_within_duration(
                r->Ok_0.record->Some_0,
            )
        }),
{
}

} // verus!
