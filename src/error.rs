//! Failures that the engine reports.

use vstd::prelude::*;

verus! {

/// Failures particular to rent agreements.
#[derive(Clone, Copy, Debug, PartialEq, Eq, Structural)]
pub enum TrustedPropertiesError {
    /// The command bytes name no operation, or are too short for it.
    InvalidInstruction,
    /// A deposit or rent payment differs from the agreed amount.
    IncorrectPaymentAmount,
    /// Every rent payment has been made already.
    RentAlreadyFullyPaid,
    /// The security deposit has been made already.
    SecurityAlreadyDeposited,
    /// The agreement was terminated.
    RentAgreementTerminated,
    /// The agreement is not in the status that the operation needs.
    InvalidAgreementStatus,
    /// A confirmed extension differs from the one requested.
    InvalidInstructionParameter,
}

impl TrustedPropertiesError {
    /// The number that the ledger's custom error carries for this failure.
    pub open spec fn spec_code(self) -> u32 {
        match self {
            TrustedPropertiesError::InvalidInstruction => 0,
            TrustedPropertiesError::IncorrectPaymentAmount => 1,
            TrustedPropertiesError::RentAlreadyFullyPaid => 2,
            TrustedPropertiesError::SecurityAlreadyDeposited => 3,
            TrustedPropertiesError::RentAgreementTerminated => 4,
            TrustedPropertiesError::InvalidAgreementStatus => 5,
            TrustedPropertiesError::InvalidInstructionParameter => 6,
        }
    }

    pub fn code(self) -> (c: u32)
        ensures
            c == self.spec_code(),
    {
        match self {
            TrustedPropertiesError::InvalidInstruction => 0,
            TrustedPropertiesError::IncorrectPaymentAmount => 1,
            TrustedPropertiesError::RentAlreadyFullyPaid => 2,
            TrustedPropertiesError::SecurityAlreadyDeposited => 3,
            TrustedPropertiesError::RentAgreementTerminated => 4,
            TrustedPropertiesError::InvalidAgreementStatus => 5,
            TrustedPropertiesError::InvalidInstructionParameter => 6,
        }
    }
}

/// Every way an operation can fail. Each variant but `Custom` is one of the
/// ledger's generic failures; `Custom` carries one particular to agreements.
#[derive(Clone, Copy, Debug, PartialEq, Eq, Structural)]
pub enum ProcessError {
    /// The agreement's storage is not owned by this program.
    IncorrectProgramId,
    /// Fewer accounts were presented than the operation needs.
    NotEnoughAccountKeys,
    /// The agreement's storage is not funded to stay persisted.
    AccountNotRentExempt,
    /// The record does not decode, or a presented account is not the stored one.
    InvalidAccountData,
    /// Initialization was asked of a record already initialized.
    AccountAlreadyInitialized,
    /// The record was never initialized.
    UninitializedAccount,
    /// A party that must sign did not.
    MissingRequiredSignature,
    /// The paying account holds less than the amount.
    InsufficientFunds,
    /// An extension would take a counter past its largest value.
    ArithmeticOverflow,
    /// A failure particular to agreements.
    Custom(TrustedPropertiesError),
}

impl From<TrustedPropertiesError> for ProcessError {
    fn from(e: TrustedPropertiesError) -> (r: ProcessError)
        ensures
            r == ProcessError::Custom(e),
    {
        ProcessError::Custom(e)
    }
}

impl vstd::std_specs::convert::FromSpecImpl<TrustedPropertiesError> for ProcessError {
    open spec fn obeys_from_spec() -> bool {
        true
    }

    open spec fn from_spec(e: TrustedPropertiesError) -> ProcessError {
        ProcessError::Custom(e)
    }
}

} // verus!
