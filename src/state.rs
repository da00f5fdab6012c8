//! The persisted agreement record and its lifecycle states.

use vstd::prelude::*;

verus! {

/// A 32-byte identity: names a party or a piece of storage.
#[derive(Clone, Copy, Debug)]
pub struct Key {
    pub bytes: [u8; 32],
}

impl View for Key {
    type V = Seq<u8>;

    open spec fn view(&self) -> Seq<u8> {
        self.bytes@
    }
}

impl PartialEq for Key {
    /// Two keys are the same identity when all 32 bytes agree.
    fn eq(&self, other: &Key) -> (r: bool)
        ensures
            r == (self@ == other@),
    {
        let mut i: usize = 0;
        while i < 32
            invariant
                0 <= i <= 32,
                self@.len() == 32,
                other@.len() == 32,
                forall|j: int| 0 <= j < i ==> self@[j] == other@[j],
            decreases 32 - i,
        {
            if self.bytes[i] != other.bytes[i] {
                return false;
            }
            i = i + 1;
        }
        assert(self@ =~= other@);
        true
    }
}

impl vstd::std_specs::cmp::PartialEqSpecImpl for Key {
    open spec fn obeys_eq_spec() -> bool {
        true
    }

    open spec fn eq_spec(&self, other: &Key) -> bool {
        self@ == other@
    }
}

impl Eq for Key {}

/// Keys with the same bytes are the same key.
pub proof fn lemma_key_view_injective(a: Key, b: Key)
    requires
        a@ == b@,
    ensures
        a == b,
{
    broadcast use vstd::array::axiom_array_ext_equal;

    assert(a.bytes =~= b.bytes);
}

/// Where an agreement stands in its lifecycle.
///
/// `Uninitialized -> DepositPending -> Active -> Completed`, and `Terminated`
/// from `DepositPending` or `Active`. `Completed` and `Terminated` are final.
#[derive(Clone, Copy, Debug, PartialEq, Eq, Structural)]
pub enum AgreementStatus {
    Uninitialized,
    DepositPending,
    Active,
    Completed,
    Terminated,
}

impl AgreementStatus {
    /// The byte that stands for this status in a stored record.
    pub open spec fn spec_to_byte(self) -> u8 {
        match self {
            AgreementStatus::Uninitialized => 0,
            AgreementStatus::DepositPending => 1,
            AgreementStatus::Active => 2,
            AgreementStatus::Completed => 3,
            AgreementStatus::Terminated => 4,
        }
    }

    /// The status that a stored byte stands for; bytes above 4 stand for none.
    pub open spec fn spec_from_byte(b: u8) -> Option<AgreementStatus> {
        if b == 0 {
            Some(AgreementStatus::Uninitialized)
        } else if b == 1 {
            Some(AgreementStatus::DepositPending)
        } else if b == 2 {
            Some(AgreementStatus::Active)
        } else if b == 3 {
            Some(AgreementStatus::Completed)
        } else if b == 4 {
            Some(AgreementStatus::Terminated)
        } else {
            None
        }
    }

    pub fn to_byte(self) -> (b: u8)
        ensures
            b == self.spec_to_byte(),
    {
        match self {
            AgreementStatus::Uninitialized => 0,
            AgreementStatus::DepositPending => 1,
            AgreementStatus::Active => 2,
            AgreementStatus::Completed => 3,
            AgreementStatus::Terminated => 4,
        }
    }

    /// Decodes a stored status byte, refusing values that name no status.
    pub fn from_byte(b: u8) -> (r: Option<AgreementStatus>)
        ensures
            r == AgreementStatus::spec_from_byte(b),
    {
        if b == 0 {
            Some(AgreementStatus::Uninitialized)
        } else if b == 1 {
            Some(AgreementStatus::DepositPending)
        } else if b == 2 {
            Some(AgreementStatus::Active)
        } else if b == 3 {
            Some(AgreementStatus::Completed)
        } else if b == 4 {
            Some(AgreementStatus::Terminated)
        } else {
            None
        }
    }
}

/// The agreement record kept in the agreement's storage.
///
/// The three keys and both amounts are written once, by initialization.
#[derive(Clone, Copy, Debug)]
pub struct RentAgreementAccount {
    /// Where the agreement stands.
    pub status: AgreementStatus,
    /// The property owner, who receives the rent.
    pub owner_pubkey: Key,
    /// The tenant, who pays.
    pub tenant_pubkey: Key,
    /// The account that holds the security deposit.
    pub security_escrow_pubkey: Key,
    /// The security deposit owed before the agreement starts.
    pub security_deposit: u64,
    /// The rent owed each month.
    pub rent_amount: u64,
    /// Number of monthly payments agreed, extensions included.
    pub duration: u8,
    /// Monthly payments still due.
    pub remaining_payments: u8,
    /// Month the agreement starts (1 to 12); descriptive only.
    pub start_month: u8,
    /// Year the agreement starts; descriptive only.
    pub start_year: u16,
    /// Months of extension the tenant asked for; 0 when none is pending.
    pub duration_extension_request: u8,
}

/// Deposit bookkeeping for an escrow account. No operation reads or
/// writes it: the layout is reserved.
#[derive(Clone, Copy, Debug)]
pub struct SecurityEscrowAccount {
    pub status: u8,
    pub agreement_pubkey: Key,
    pub owner_pubkey: Key,
    pub tenant_pubkey: Key,
    pub security_deposit: u64,
    pub remaining_deposit: u64,
}

impl RentAgreementAccount {
    /// Whether initialization has brought the record to life.
    pub fn is_initialized(&self) -> (r: bool)
        ensures
            r == (self.status != AgreementStatus::Uninitialized),
    {
        self.status != AgreementStatus::Uninitialized
    }

    /// Whether the security deposit is still owed.
    pub fn is_security_deposit_pending(&self) -> (r: bool)
        ensures
            r == (self.status == AgreementStatus::DepositPending),
    {
        self.status == AgreementStatus::DepositPending
    }

    /// Whether every payment has been made.
    pub fn is_completed(&self) -> (r: bool)
        ensures
            r == (self.status == AgreementStatus::Completed),
    {
        self.status == AgreementStatus::Completed
    }

    /// Whether the agreement was ended early.
    pub fn is_terminated(&self) -> (r: bool)
        ensures
            r == (self.status == AgreementStatus::Terminated),
    {
        self.status == AgreementStatus::Terminated
    }
}

} // verus!
