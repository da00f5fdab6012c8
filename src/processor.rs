//! The transition engine: for each command, whether it is legal on the stored
//! record and the presented accounts, and if so the record to store and the
//! transfer to request.
//!
//! Every operation is a function of its inputs. The caller writes the record
//! back and performs the transfer only on success; a failure changes nothing.

use vstd::prelude::*;
use crate::codec::{lemma_parse_record_bytes, parse_record, record_bytes};
use crate::error::{ProcessError, TrustedPropertiesError};
use crate::instruction::{is_instruction_data, unpacks_to, TrustedPropertiesInstruction};
use crate::state::{AgreementStatus, Key, RentAgreementAccount};

verus! {

/// What the engine sees of an account presented with a command.
#[derive(Clone, Copy, Debug)]
pub struct AccountView {
    /// The account's identity.
    pub key: Key,
    /// The program that owns the account.
    pub owner: Key,
    /// Whether the account's holder signed the command.
    pub is_signer: bool,
    /// The account's balance.
    pub lamports: u64,
}

/// A request to move `lamports` from `from` to `to`.
#[derive(Clone, Copy, Debug)]
pub struct Transfer {
    pub from: Key,
    pub to: Key,
    pub lamports: u64,
}

/// The effect of a successful operation.
#[derive(Clone, Copy, Debug)]
pub struct Outcome {
    /// The record to store in the agreement's storage; `None` leaves it as it is.
    pub record: Option<RentAgreementAccount>,
    /// The transfer to perform before the record is stored, if any.
    pub transfer: Option<Transfer>,
}

/// Runs commands against agreement records.
pub struct Processor;

/// The failure, if any, of the checks every operation makes first: the
/// agreement's storage is presented first and owned by the program, and
/// `needed` accounts are presented in all.
pub open spec fn accounts_error(program_id: Key, accounts: Seq<AccountView>, needed: nat) -> Option<
    ProcessError,
> {
    if accounts.len() < 1 {
        Some(ProcessError::NotEnoughAccountKeys)
    } else if accounts[0].owner@ != program_id@ {
        Some(ProcessError::IncorrectProgramId)
    } else if accounts.len() < needed {
        Some(ProcessError::NotEnoughAccountKeys)
    } else {
        None
    }
}

/// The initialized record that `data` stores, or why there is none.
pub open spec fn stored_record(data: Seq<u8>) -> Result<RentAgreementAccount, ProcessError> {
    match parse_record(data) {
        None => Err(ProcessError::InvalidAccountData),
        Some(rec) => if rec.status == AgreementStatus::Uninitialized {
            Err(ProcessError::UninitializedAccount)
        } else {
            Ok(rec)
        },
    }
}

/// An outcome that stores `rec` and moves nothing.
pub open spec fn store_only(rec: RentAgreementAccount) -> Outcome {
    Outcome { record: Some(rec), transfer: None }
}

/// An outcome that changes nothing.
pub open spec fn no_effect() -> Outcome {
    Outcome { record: None, transfer: None }
}

/// The record that initialization writes.
pub open spec fn new_agreement(
    owner_pubkey: Key,
    tenant_pubkey: Key,
    security_escrow_pubkey: Key,
    security_deposit: u64,
    rent_amount: u64,
    duration: u8,
    start_month: u8,
    start_year: u16,
) -> RentAgreementAccount {
    RentAgreementAccount {
        status: AgreementStatus::DepositPending,
        owner_pubkey,
        tenant_pubkey,
        security_escrow_pubkey,
        security_deposit,
        rent_amount,
        duration,
        remaining_payments: duration,
        start_month,
        start_year,
        duration_extension_request: 0,
    }
}

/// Initialization. Accounts: the agreement's storage, then the funding
/// oracle's account; `storage_funded` is the oracle's answer for the storage.
pub open spec fn initialize_rule(
    program_id: Key,
    accounts: Seq<AccountView>,
    data: Seq<u8>,
    storage_funded: bool,
    owner_pubkey: Key,
    tenant_pubkey: Key,
    security_escrow_pubkey: Key,
    security_deposit: u64,
    rent_amount: u64,
    duration: u8,
    start_month: u8,
    start_year: u16,
) -> Result<Outcome, ProcessError> {
    if let Some(e) = accounts_error(program_id, accounts, 2) {
        Err(e)
    } else if !storage_funded {
        Err(ProcessError::AccountNotRentExempt)
    } else {
        match parse_record(data) {
            None => Err(ProcessError::InvalidAccountData),
            Some(rec) => if rec.status != AgreementStatus::Uninitialized {
                Err(ProcessError::AccountAlreadyInitialized)
            } else {
                Ok(
                    store_only(
                        new_agreement(
                            owner_pubkey,
                            tenant_pubkey,
                            security_escrow_pubkey,
                            security_deposit,
                            rent_amount,
                            duration,
                            start_month,
                            start_year,
                        ),
                    ),
                )
            },
        }
    }
}

/// What a security deposit of `amount` into the account `escrow` does to
/// an initialized record.
pub open spec fn deposit_transition(rec: RentAgreementAccount, escrow: Key, amount: u64) -> Result<
    RentAgreementAccount,
    ProcessError,
> {
    if rec.security_escrow_pubkey@ != escrow@ {
        Err(ProcessError::InvalidAccountData)
    } else if rec.status != AgreementStatus::DepositPending {
        Err(ProcessError::Custom(TrustedPropertiesError::SecurityAlreadyDeposited))
    } else if amount != rec.security_deposit {
        Err(ProcessError::Custom(TrustedPropertiesError::IncorrectPaymentAmount))
    } else {
        Ok(RentAgreementAccount { status: AgreementStatus::Active, ..rec })
    }
}

/// Security deposit. Accounts: the agreement's storage, the tenant, the
/// escrow account, the transfer service. When tenant and escrow are the same
/// account nothing happens at all, the status included.
pub open spec fn deposit_security_rule(
    program_id: Key,
    accounts: Seq<AccountView>,
    data: Seq<u8>,
    amount: u64,
) -> Result<Outcome, ProcessError> {
    if let Some(e) = accounts_error(program_id, accounts, 4) {
        Err(e)
    } else if !accounts[1].is_signer {
        Err(ProcessError::MissingRequiredSignature)
    } else if accounts[1].lamports < amount {
        Err(ProcessError::InsufficientFunds)
    } else if accounts[1].key@ == accounts[2].key@ {
        Ok(no_effect())
    } else {
        match stored_record(data) {
            Err(e) => Err(e),
            Ok(rec) => match deposit_transition(rec, accounts[2].key, amount) {
                Err(e) => Err(e),
                Ok(new_rec) => Ok(
                    Outcome {
                        record: Some(new_rec),
                        transfer: Some(
                            Transfer { from: accounts[1].key, to: accounts[2].key, lamports: amount },
                        ),
                    },
                ),
            },
        }
    }
}

/// What a rent payment of `amount` to the account `owner` does to an
/// initialized record. A record with no payment left due refuses payment.
pub open spec fn pay_rent_transition(rec: RentAgreementAccount, owner: Key, amount: u64) -> Result<
    RentAgreementAccount,
    ProcessError,
> {
    if rec.owner_pubkey@ != owner@ {
        Err(ProcessError::InvalidAccountData)
    } else if rec.status == AgreementStatus::Completed {
        Err(ProcessError::Custom(TrustedPropertiesError::RentAlreadyFullyPaid))
    } else if rec.status == AgreementStatus::Terminated {
        Err(ProcessError::Custom(TrustedPropertiesError::RentAgreementTerminated))
    } else if amount != rec.rent_amount {
        Err(ProcessError::Custom(TrustedPropertiesError::IncorrectPaymentAmount))
    } else if rec.remaining_payments == 0 {
        Err(ProcessError::Custom(TrustedPropertiesError::RentAlreadyFullyPaid))
    } else {
        Ok(
            RentAgreementAccount {
                remaining_payments: (rec.remaining_payments - 1) as u8,
                status: if rec.remaining_payments == 1 {
                    AgreementStatus::Completed
                } else {
                    rec.status
                },
                ..rec
            },
        )
    }
}

/// Rent payment. Accounts: the agreement's storage, the tenant, the owner,
/// the transfer service. When tenant and owner are the same account nothing
/// happens at all.
pub open spec fn pay_rent_rule(
    program_id: Key,
    accounts: Seq<AccountView>,
    data: Seq<u8>,
    amount: u64,
) -> Result<Outcome, ProcessError> {
    if let Some(e) = accounts_error(program_id, accounts, 4) {
        Err(e)
    } else if !accounts[1].is_signer {
        Err(ProcessError::MissingRequiredSignature)
    } else if accounts[1].lamports < amount {
        Err(ProcessError::InsufficientFunds)
    } else if accounts[1].key@ == accounts[2].key@ {
        Ok(no_effect())
    } else {
        match stored_record(data) {
            Err(e) => Err(e),
            Ok(rec) => match pay_rent_transition(rec, accounts[2].key, amount) {
                Err(e) => Err(e),
                Ok(new_rec) => Ok(
                    Outcome {
                        record: Some(new_rec),
                        transfer: Some(
                            Transfer { from: accounts[1].key, to: accounts[2].key, lamports: amount },
                        ),
                    },
                ),
            },
        }
    }
}

/// What early termination does to an initialized record.
pub open spec fn terminate_transition(rec: RentAgreementAccount) -> Result<
    RentAgreementAccount,
    ProcessError,
> {
    if rec.status == AgreementStatus::Completed {
        Err(ProcessError::Custom(TrustedPropertiesError::RentAlreadyFullyPaid))
    } else if rec.status == AgreementStatus::Terminated {
        Err(ProcessError::Custom(TrustedPropertiesError::RentAgreementTerminated))
    } else {
        Ok(
            RentAgreementAccount {
                remaining_payments: 0,
                status: AgreementStatus::Terminated,
                ..rec
            },
        )
    }
}

/// Early termination. Accounts: the agreement's storage. No party signs.
pub open spec fn terminate_early_rule(program_id: Key, accounts: Seq<AccountView>, data: Seq<u8>) -> Result<
    Outcome,
    ProcessError,
> {
    if let Some(e) = accounts_error(program_id, accounts, 1) {
        Err(e)
    } else {
        match stored_record(data) {
            Err(e) => Err(e),
            Ok(rec) => match terminate_transition(rec) {
                Err(e) => Err(e),
                Ok(new_rec) => Ok(store_only(new_rec)),
            },
        }
    }
}

/// What a request for `extension` more months does to an initialized record.
pub open spec fn request_extension_transition(rec: RentAgreementAccount, extension: u8) -> Result<
    RentAgreementAccount,
    ProcessError,
> {
    if rec.status != AgreementStatus::Active {
        Err(ProcessError::Custom(TrustedPropertiesError::InvalidAgreementStatus))
    } else {
        Ok(RentAgreementAccount { duration_extension_request: extension, ..rec })
    }
}

/// Extension request. Accounts: the agreement's storage, then a signer,
/// which is not compared with the stored tenant.
pub open spec fn request_extension_rule(
    program_id: Key,
    accounts: Seq<AccountView>,
    data: Seq<u8>,
    extension: u8,
) -> Result<Outcome, ProcessError> {
    if let Some(e) = accounts_error(program_id, accounts, 2) {
        Err(e)
    } else if !accounts[1].is_signer {
        Err(ProcessError::MissingRequiredSignature)
    } else {
        match stored_record(data) {
            Err(e) => Err(e),
            Ok(rec) => match request_extension_transition(rec, extension) {
                Err(e) => Err(e),
                Ok(new_rec) => Ok(store_only(new_rec)),
            },
        }
    }
}

/// What confirming an extension of `extension` months does to an
/// initialized record. An extension that would take the duration or the
/// payments due past 255 is refused.
pub open spec fn confirm_extension_transition(rec: RentAgreementAccount, extension: u8) -> Result<
    RentAgreementAccount,
    ProcessError,
> {
    if rec.status != AgreementStatus::Active {
        Err(ProcessError::Custom(TrustedPropertiesError::InvalidAgreementStatus))
    } else if rec.duration_extension_request != extension {
        Err(ProcessError::Custom(TrustedPropertiesError::InvalidInstructionParameter))
    } else if rec.duration + extension > 255 || rec.remaining_payments + extension > 255 {
        Err(ProcessError::ArithmeticOverflow)
    } else {
        Ok(
            RentAgreementAccount {
                duration: (rec.duration + extension) as u8,
                remaining_payments: (rec.remaining_payments + extension) as u8,
                duration_extension_request: 0,
                ..rec
            },
        )
    }
}

/// Extension confirmation. Accounts: the agreement's storage, then a
/// signer, which is not compared with the stored owner.
pub open spec fn confirm_extension_rule(
    program_id: Key,
    accounts: Seq<AccountView>,
    data: Seq<u8>,
    extension: u8,
) -> Result<Outcome, ProcessError> {
    if let Some(e) = accounts_error(program_id, accounts, 2) {
        Err(e)
    } else if !accounts[1].is_signer {
        Err(ProcessError::MissingRequiredSignature)
    } else {
        match stored_record(data) {
            Err(e) => Err(e),
            Ok(rec) => match confirm_extension_transition(rec, extension) {
                Err(e) => Err(e),
                Ok(new_rec) => Ok(store_only(new_rec)),
            },
        }
    }
}

/// What command `ins` does.
pub open spec fn command_rule(
    program_id: Key,
    accounts: Seq<AccountView>,
    data: Seq<u8>,
    storage_funded: bool,
    ins: TrustedPropertiesInstruction,
) -> Result<Outcome, ProcessError> {
    match ins {
        TrustedPropertiesInstruction::InitializeRentContract {
            owner_pubkey,
            tenant_pubkey,
            security_escrow_pubkey,
            security_deposit,
            rent_amount,
            duration,
            start_month,
            start_year,
        } => initialize_rule(
            program_id,
            accounts,
            data,
            storage_funded,
            owner_pubkey,
            tenant_pubkey,
            security_escrow_pubkey,
            security_deposit,
            rent_amount,
            duration,
            start_month,
            start_year,
        ),
        TrustedPropertiesInstruction::DepositSecurity { security_deposit_amount } =>
            deposit_security_rule(program_id, accounts, data, security_deposit_amount),
        TrustedPropertiesInstruction::PayRent { rent_amount } => pay_rent_rule(
            program_id,
            accounts,
            data,
            rent_amount,
        ),
        TrustedPropertiesInstruction::TerminateEarly {  } => terminate_early_rule(
            program_id,
            accounts,
            data,
        ),
        TrustedPropertiesInstruction::RequestContractDurationExtension { extension_duration } =>
            request_extension_rule(program_id, accounts, data, extension_duration),
        TrustedPropertiesInstruction::ConfirmContractDurationExtension { extension_duration } =>
            confirm_extension_rule(program_id, accounts, data, extension_duration),
    }
}

/// Makes the checks of `accounts_error`.
fn check_accounts(program_id: &Key, accounts: &[AccountView], needed: usize) -> (r: Result<
    (),
    ProcessError,
>)
    ensures
        r == (match accounts_error(*program_id, accounts@, needed as nat) {
            Some(e) => Err(e),
            None => Ok(()),
        }),
{
    if accounts.len() < 1 {
        return Err(ProcessError::NotEnoughAccountKeys);
    }
    if accounts[0].owner != *program_id {
        return Err(ProcessError::IncorrectProgramId);
    }
    if accounts.len() < needed {
        return Err(ProcessError::NotEnoughAccountKeys);
    }
    Ok(())
}

/// Decodes the stored record and insists that it is initialized.
fn load_initialized(data: &[u8]) -> (r: Result<RentAgreementAccount, ProcessError>)
    ensures
        r == stored_record(data@),
{
    match RentAgreementAccount::unpack(data) {
        Err(e) => {
            proof {
                if exists|x: RentAgreementAccount| record_bytes(x) == data@ {
                    let x = choose|x: RentAgreementAccount| record_bytes(x) == data@;
                    lemma_parse_record_bytes(x);
                }
            }
            Err(e)
        },
        Ok(rec) => {
            if !rec.is_initialized() {
                return Err(ProcessError::UninitializedAccount);
            }
            Ok(rec)
        },
    }
}

fn deposit_step(rec: &RentAgreementAccount, escrow: &Key, amount: u64) -> (r: Result<
    RentAgreementAccount,
    ProcessError,
>)
    ensures
        r == deposit_transition(*rec, *escrow, amount),
{
    if rec.security_escrow_pubkey != *escrow {
        return Err(ProcessError::InvalidAccountData);
    }
    if !rec.is_security_deposit_pending() {
        return Err(ProcessError::Custom(TrustedPropertiesError::SecurityAlreadyDeposited));
    }
    if amount != rec.security_deposit {
        return Err(ProcessError::Custom(TrustedPropertiesError::IncorrectPaymentAmount));
    }
    let mut new_rec = *rec;
    new_rec.status = AgreementStatus::Active;
    Ok(new_rec)
}

fn pay_rent_step(rec: &RentAgreementAccount, owner: &Key, amount: u64) -> (r: Result<
    RentAgreementAccount,
    ProcessError,
>)
    ensures
        r == pay_rent_transition(*rec, *owner, amount),
{
    if rec.owner_pubkey != *owner {
        return Err(ProcessError::InvalidAccountData);
    }
    if rec.is_completed() {
        return Err(ProcessError::Custom(TrustedPropertiesError::RentAlreadyFullyPaid));
    }
    if rec.is_terminated() {
        return Err(ProcessError::Custom(TrustedPropertiesError::RentAgreementTerminated));
    }
    if amount != rec.rent_amount {
        return Err(ProcessError::Custom(TrustedPropertiesError::IncorrectPaymentAmount));
    }
    if rec.remaining_payments == 0 {
        return Err(ProcessError::Custom(TrustedPropertiesError::RentAlreadyFullyPaid));
    }
    let mut new_rec = *rec;
    new_rec.remaining_payments = rec.remaining_payments - 1;
    if new_rec.remaining_payments == 0 {
        new_rec.status = AgreementStatus::Completed;
    }
    Ok(new_rec)
}

fn terminate_step(rec: &RentAgreementAccount) -> (r: Result<RentAgreementAccount, ProcessError>)
    ensures
        r == terminate_transition(*rec),
{
    if rec.is_completed() {
        return Err(ProcessError::Custom(TrustedPropertiesError::RentAlreadyFullyPaid));
    }
    if rec.is_terminated() {
        return Err(ProcessError::Custom(TrustedPropertiesError::RentAgreementTerminated));
    }
    let mut new_rec = *rec;
    new_rec.remaining_payments = 0;
    new_rec.status = AgreementStatus::Terminated;
    Ok(new_rec)
}

fn request_extension_step(rec: &RentAgreementAccount, extension: u8) -> (r: Result<
    RentAgreementAccount,
    ProcessError,
>)
    ensures
        r == request_extension_transition(*rec, extension),
{
    if rec.status != AgreementStatus::Active {
        return Err(ProcessError::Custom(TrustedPropertiesError::InvalidAgreementStatus));
    }
    let mut new_rec = *rec;
    new_rec.duration_extension_request = extension;
    Ok(new_rec)
}

fn confirm_extension_step(rec: &RentAgreementAccount, extension: u8) -> (r: Result<
    RentAgreementAccount,
    ProcessError,
>)
    ensures
        r == confirm_extension_transition(*rec, extension),
{
    if rec.status != AgreementStatus::Active {
        return Err(ProcessError::Custom(TrustedPropertiesError::InvalidAgreementStatus));
    }
    if rec.duration_extension_request != extension {
        return Err(ProcessError::Custom(TrustedPropertiesError::InvalidInstructionParameter));
    }
    let duration = match rec.duration.checked_add(extension) {
        Some(d) => d,
        None => {
            return Err(ProcessError::ArithmeticOverflow);
        },
    };
    let remaining = match rec.remaining_payments.checked_add(extension) {
        Some(n) => n,
        None => {
            return Err(ProcessError::ArithmeticOverflow);
        },
    };
    let mut new_rec = *rec;
    new_rec.duration = duration;
    new_rec.remaining_payments = remaining;
    new_rec.duration_extension_request = 0;
    Ok(new_rec)
}

impl Processor {
    /// Decodes `instruction_data` and runs the command it holds against the
    /// record stored as `record_data`. `accounts[0]` is the agreement's
    /// storage; `storage_funded` is the funding oracle's answer for it, read
    /// by initialization only.
    pub fn process(
        program_id: &Key,
        accounts: &[AccountView],
        record_data: &[u8],
        instruction_data: &[u8],
        storage_funded: bool,
    ) -> (r: Result<Outcome, ProcessError>)
        ensures
            !is_instruction_data(instruction_data@) ==> r == Err::<Outcome, ProcessError>(
                ProcessError::Custom(TrustedPropertiesError::InvalidInstruction),
            ),
            is_instruction_data(instruction_data@) ==> exists|ins: TrustedPropertiesInstruction|
                unpacks_to(instruction_data@, ins) && r == command_rule(
                    *program_id,
                    accounts@,
                    record_data@,
                    storage_funded,
                    ins,
                ),
    {
        let ins = match TrustedPropertiesInstruction::unpack(instruction_data) {
            Ok(ins) => ins,
            Err(e) => {
                return Err(e);
            },
        };
        match ins {
            TrustedPropertiesInstruction::InitializeRentContract {
                owner_pubkey,
                tenant_pubkey,
                security_escrow_pubkey,
                security_deposit,
                rent_amount,
                duration,
                start_month,
                start_year,
            } => Self::initialize_rent_contract(
                program_id,
                accounts,
                record_data,
                storage_funded,
                owner_pubkey,
                tenant_pubkey,
                security_escrow_pubkey,
                security_deposit,
                rent_amount,
                duration,
                start_month,
                start_year,
            ),
            TrustedPropertiesInstruction::DepositSecurity { security_deposit_amount } =>
                Self::deposit_security(program_id, accounts, record_data, security_deposit_amount),
            TrustedPropertiesInstruction::PayRent { rent_amount } => Self::pay_rent(
                program_id,
                accounts,
                record_data,
                rent_amount,
            ),
            TrustedPropertiesInstruction::TerminateEarly {  } => Self::terminate_early(
                program_id,
                accounts,
                record_data,
            ),
            TrustedPropertiesInstruction::RequestContractDurationExtension {
                extension_duration,
            } => Self::extend_contract_duration_request(
                program_id,
                accounts,
                record_data,
                extension_duration,
            ),
            TrustedPropertiesInstruction::ConfirmContractDurationExtension {
                extension_duration,
            } => Self::extend_contract_duration_confirm(
                program_id,
                accounts,
                record_data,
                extension_duration,
            ),
        }
    }

    /// Brings a freshly allocated record to life on the given terms.
    pub fn initialize_rent_contract(
        program_id: &Key,
        accounts: &[AccountView],
        record_data: &[u8],
        storage_funded: bool,
        owner_pubkey: Key,
        tenant_pubkey: Key,
        security_escrow_pubkey: Key,
        security_deposit: u64,
        rent_amount: u64,
        duration: u8,
        start_month: u8,
        start_year: u16,
    ) -> (r: Result<Outcome, ProcessError>)
        ensures
            r == initialize_rule(
                *program_id,
                accounts@,
                record_data@,
                storage_funded,
                owner_pubkey,
                tenant_pubkey,
                security_escrow_pubkey,
                security_deposit,
                rent_amount,
                duration,
                start_month,
                start_year,
            ),
    {
        if let Err(e) = check_accounts(program_id, accounts, 2) {
            return Err(e);
        }
        if !storage_funded {
            return Err(ProcessError::AccountNotRentExempt);
        }
        let rec = match load_initialized(record_data) {
            Ok(_) => {
                return Err(ProcessError::AccountAlreadyInitialized);
            },
            Err(ProcessError::UninitializedAccount) => {
                let rec = RentAgreementAccount {
                    status: AgreementStatus::DepositPending,
                    owner_pubkey,
                    tenant_pubkey,
                    security_escrow_pubkey,
                    security_deposit,
                    rent_amount,
                    duration,
                    remaining_payments: duration,
                    start_month,
                    start_year,
                    duration_extension_request: 0,
                };
                rec
            },
            Err(e) => {
                return Err(e);
            },
        };
        Ok(Outcome { record: Some(rec), transfer: None })
    }

    /// Takes the security deposit from the tenant into escrow and makes the
    /// agreement active.
    pub fn deposit_security(
        program_id: &Key,
        accounts: &[AccountView],
        record_data: &[u8],
        security_deposit_amount: u64,
    ) -> (r: Result<Outcome, ProcessError>)
        ensures
            r == deposit_security_rule(*program_id, accounts@, record_data@, security_deposit_amount),
    {
        if let Err(e) = check_accounts(program_id, accounts, 4) {
            return Err(e);
        }
        let tenant = accounts[1];
        let escrow = accounts[2];
        if !tenant.is_signer {
            return Err(ProcessError::MissingRequiredSignature);
        }
        if tenant.lamports < security_deposit_amount {
            return Err(ProcessError::InsufficientFunds);
        }
        if tenant.key == escrow.key {
            return Ok(Outcome { record: None, transfer: None });
        }
        let rec = match load_initialized(record_data) {
            Ok(rec) => rec,
            Err(e) => {
                return Err(e);
            },
        };
        match deposit_step(&rec, &escrow.key, security_deposit_amount) {
            Ok(new_rec) => Ok(
                Outcome {
                    record: Some(new_rec),
                    transfer: Some(
                        Transfer {
                            from: tenant.key,
                            to: escrow.key,
                            lamports: security_deposit_amount,
                        },
                    ),
                },
            ),
            Err(e) => Err(e),
        }
    }

    /// Takes one month's rent from the tenant to the owner.
    pub fn pay_rent(
        program_id: &Key,
        accounts: &[AccountView],
        record_data: &[u8],
        rent_amount: u64,
    ) -> (r: Result<Outcome, ProcessError>)
        ensures
            r == pay_rent_rule(*program_id, accounts@, record_data@, rent_amount),
    {
        if let Err(e) = check_accounts(program_id, accounts, 4) {
            return Err(e);
        }
        let tenant = accounts[1];
        let owner = accounts[2];
        if !tenant.is_signer {
            return Err(ProcessError::MissingRequiredSignature);
        }
        if tenant.lamports < rent_amount {
            return Err(ProcessError::InsufficientFunds);
        }
        if tenant.key == owner.key {
            return Ok(Outcome { record: None, transfer: None });
        }
        let rec = match load_initialized(record_data) {
            Ok(rec) => rec,
            Err(e) => {
                return Err(e);
            },
        };
        match pay_rent_step(&rec, &owner.key, rent_amount) {
            Ok(new_rec) => Ok(
                Outcome {
                    record: Some(new_rec),
                    transfer: Some(
                        Transfer { from: tenant.key, to: owner.key, lamports: rent_amount },
                    ),
                },
            ),
            Err(e) => Err(e),
        }
    }

    /// Ends the agreement before its term.
    pub fn terminate_early(program_id: &Key, accounts: &[AccountView], record_data: &[u8]) -> (r:
        Result<Outcome, ProcessError>)
        ensures
            r == terminate_early_rule(*program_id, accounts@, record_data@),
    {
        if let Err(e) = check_accounts(program_id, accounts, 1) {
            return Err(e);
        }
        let rec = match load_initialized(record_data) {
            Ok(rec) => rec,
            Err(e) => {
                return Err(e);
            },
        };
        match terminate_step(&rec) {
            Ok(new_rec) => Ok(Outcome { record: Some(new_rec), transfer: None }),
            Err(e) => Err(e),
        }
    }

    /// Records the tenant's request for a longer agreement.
    pub fn extend_contract_duration_request(
        program_id: &Key,
        accounts: &[AccountView],
        record_data: &[u8],
        extension_duration: u8,
    ) -> (r: Result<Outcome, ProcessError>)
        ensures
            r == request_extension_rule(*program_id, accounts@, record_data@, extension_duration),
    {
        if let Err(e) = check_accounts(program_id, accounts, 2) {
            return Err(e);
        }
        if !accounts[1].is_signer {
            return Err(ProcessError::MissingRequiredSignature);
        }
        let rec = match load_initialized(record_data) {
            Ok(rec) => rec,
            Err(e) => {
                return Err(e);
            },
        };
        match request_extension_step(&rec, extension_duration) {
            Ok(new_rec) => Ok(Outcome { record: Some(new_rec), transfer: None }),
            Err(e) => Err(e),
        }
    }

    /// Applies the extension that the tenant asked for, on the owner's
    /// confirmation.
    pub fn extend_contract_duration_confirm(
        program_id: &Key,
        accounts: &[AccountView],
        record_data: &[u8],
        extension_duration: u8,
    ) -> (r: Result<Outcome, ProcessError>)
        ensures
            r == confirm_extension_rule(*program_id, accounts@, record_data@, extension_duration),
    {
        if let Err(e) = check_accounts(program_id, accounts, 2) {
            return Err(e);
        }
        if !accounts[1].is_signer {
            return Err(ProcessError::MissingRequiredSignature);
        }
        let rec = match load_initialized(record_data) {
            Ok(rec) => rec,
            Err(e) => {
                return Err(e);
            },
        };
        match confirm_extension_step(&rec, extension_duration) {
            Ok(new_rec) => Ok(Outcome { record: Some(new_rec), transfer: None }),
            Err(e) => Err(e),
        }
    }
}

} // verus!
