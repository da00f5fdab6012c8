//! The commands the engine accepts, and their byte encoding.
//!
//! A command is a tag byte followed by its parameters at fixed offsets,
//! little-endian, each read with exactly its own width. Bytes past the last
//! parameter are ignored.

use vstd::prelude::*;
use crate::codec::{le_value, lemma_pow256_8, read_key, read_le};
use crate::error::{ProcessError, TrustedPropertiesError};
use crate::state::{lemma_key_view_injective, Key};

verus! {

/// One operation on an agreement, with its parameters.
#[derive(Clone, Copy, Debug)]
pub enum TrustedPropertiesInstruction {
    /// Start an agreement between owner and tenant on the given terms.
    InitializeRentContract {
        owner_pubkey: Key,
        tenant_pubkey: Key,
        security_escrow_pubkey: Key,
        security_deposit: u64,
        rent_amount: u64,
        duration: u8,
        start_month: u8,
        start_year: u16,
    },
    /// Pay the security deposit, tenant to escrow.
    DepositSecurity { security_deposit_amount: u64 },
    /// Pay one month's rent, tenant to owner.
    PayRent { rent_amount: u64 },
    /// End the agreement before its term.
    TerminateEarly {},
    /// The tenant asks for a longer agreement.
    RequestContractDurationExtension { extension_duration: u8 },
    /// The owner agrees to the extension asked for.
    ConfirmContractDurationExtension { extension_duration: u8 },
}

/// Bytes of parameters that follow the tag `tag`, if it names a command.
pub open spec fn payload_len(tag: u8) -> Option<nat> {
    if tag == 0 {
        Some(116)
    } else if tag == 1 || tag == 2 {
        Some(8)
    } else if tag == 3 {
        Some(0)
    } else if tag == 4 || tag == 5 {
        Some(1)
    } else {
        None
    }
}

/// Whether `input` holds a command: a known tag followed by at least its
/// parameters.
pub open spec fn is_instruction_data(input: Seq<u8>) -> bool {
    &&& input.len() >= 1
    &&& payload_len(input[0]) is Some
    &&& input.len() >= 1 + payload_len(input[0])->0
}

/// Whether `ins` is the command that `input` encodes.
pub open spec fn unpacks_to(input: Seq<u8>, ins: TrustedPropertiesInstruction) -> bool {
    let p = input.drop_first();
    match ins {
        TrustedPropertiesInstruction::InitializeRentContract {
            owner_pubkey,
            tenant_pubkey,
            security_escrow_pubkey,
            security_deposit,
            rent_amount,
            duration,
            start_month,
            start_year,
        } => {
            &&& input[0] == 0
            &&& owner_pubkey@ == p.subrange(0, 32)
            &&& tenant_pubkey@ == p.subrange(32, 64)
            &&& security_escrow_pubkey@ == p.subrange(64, 96)
            &&& security_deposit == le_value(p.subrange(96, 104))
            &&& rent_amount == le_value(p.subrange(104, 112))
            &&& duration == p[112]
            &&& start_month == p[113]
            &&& start_year == le_value(p.subrange(114, 116))
        },
        TrustedPropertiesInstruction::DepositSecurity { security_deposit_amount } => {
            &&& input[0] == 1
            &&& security_deposit_amount == le_value(p.subrange(0, 8))
        },
        TrustedPropertiesInstruction::PayRent { rent_amount } => {
            &&& input[0] == 2
            &&& rent_amount == le_value(p.subrange(0, 8))
        },
        TrustedPropertiesInstruction::TerminateEarly {  } => input[0] == 3,
        TrustedPropertiesInstruction::RequestContractDurationExtension { extension_duration } => {
            &&& input[0] == 4
            &&& extension_duration == p[0]
        },
        TrustedPropertiesInstruction::ConfirmContractDurationExtension { extension_duration } => {
            &&& input[0] == 5
            &&& extension_duration == p[0]
        },
    }
}

/// The bytes of a command encode one command only.
pub proof fn lemma_unpacks_to_unique(
    input: Seq<u8>,
    a: TrustedPropertiesInstruction,
    b: TrustedPropertiesInstruction,
)
    requires
        unpacks_to(input, a),
        unpacks_to(input, b),
    ensures
        a == b,
{
    match (a, b) {
        (
            TrustedPropertiesInstruction::InitializeRentContract {
                owner_pubkey: o1,
                tenant_pubkey: t1,
                security_escrow_pubkey: e1,
                ..
            },
            TrustedPropertiesInstruction::InitializeRentContract {
                owner_pubkey: o2,
                tenant_pubkey: t2,
                security_escrow_pubkey: e2,
                ..
            },
        ) => {
            lemma_key_view_injective(o1, o2);
            lemma_key_view_injective(t1, t2);
            lemma_key_view_injective(e1, e2);
        },
        _ => {},
    }
}

impl TrustedPropertiesInstruction {
    /// Decodes a command. It fails, with `InvalidInstruction`, exactly when
    /// the tag is unknown or the bytes end before the command's parameters do.
    pub fn unpack(input: &[u8]) -> (r: Result<TrustedPropertiesInstruction, ProcessError>)
        ensures
            r is Ok <==> is_instruction_data(input@),
            r matches Ok(ins) ==> unpacks_to(input@, ins),
            r matches Err(e) ==> e == ProcessError::Custom(
                TrustedPropertiesError::InvalidInstruction,
            ),
    {
        let invalid = ProcessError::Custom(TrustedPropertiesError::InvalidInstruction);
        if input.len() == 0 {
            return Err(invalid);
        }
        let tag = input[0];
        let ghost p = input@.drop_first();
        if tag == 0 {
            if input.len() < 117 {
                return Err(invalid);
            }
            let owner_pubkey = read_key(input, 1);
            let tenant_pubkey = read_key(input, 33);
            let security_escrow_pubkey = read_key(input, 65);
            let security_deposit = Self::unpack_u64(input, 97)?;
            let rent_amount = Self::unpack_u64(input, 105)?;
            let duration = Self::unpack_u8(input, 113)?;
            let start_month = Self::unpack_u8(input, 114)?;
            let start_year = Self::unpack_u16(input, 115)?;
            proof {
                assert(p.subrange(0, 32) =~= input@.subrange(1, 33));
                assert(p.subrange(32, 64) =~= input@.subrange(33, 65));
                assert(p.subrange(64, 96) =~= input@.subrange(65, 97));
                assert(p.subrange(96, 104) =~= input@.subrange(97, 105));
                assert(p.subrange(104, 112) =~= input@.subrange(105, 113));
                assert(p.subrange(114, 116) =~= input@.subrange(115, 117));
            }
            Ok(
                TrustedPropertiesInstruction::InitializeRentContract {
                    owner_pubkey,
                    tenant_pubkey,
                    security_escrow_pubkey,
                    security_deposit,
                    rent_amount,
                    duration,
                    start_month,
                    start_year,
                },
            )
        } else if tag == 1 {
            if input.len() < 9 {
                return Err(invalid);
            }
            let security_deposit_amount = Self::unpack_u64(input, 1)?;
            assert(p.subrange(0, 8) =~= input@.subrange(1, 9));
            Ok(TrustedPropertiesInstruction::DepositSecurity { security_deposit_amount })
        } else if tag == 2 {
            if input.len() < 9 {
                return Err(invalid);
            }
            let rent_amount = Self::unpack_u64(input, 1)?;
            assert(p.subrange(0, 8) =~= input@.subrange(1, 9));
            Ok(TrustedPropertiesInstruction::PayRent { rent_amount })
        } else if tag == 3 {
            Ok(TrustedPropertiesInstruction::TerminateEarly {  })
        } else if tag == 4 {
            if input.len() < 2 {
                return Err(invalid);
            }
            let extension_duration = Self::unpack_u8(input, 1)?;
            Ok(TrustedPropertiesInstruction::RequestContractDurationExtension { extension_duration })
        } else if tag == 5 {
            if input.len() < 2 {
                return Err(invalid);
            }
            let extension_duration = Self::unpack_u8(input, 1)?;
            Ok(TrustedPropertiesInstruction::ConfirmContractDurationExtension { extension_duration })
        } else {
            Err(invalid)
        }
    }

    /// Reads the byte at `start`.
    fn unpack_u8(input: &[u8], start: usize) -> (r: Result<u8, ProcessError>)
        ensures
            r is Ok <==> start < input@.len(),
            r matches Ok(v) ==> v == input@[start as int],
            r matches Err(e) ==> e == ProcessError::Custom(
                TrustedPropertiesError::InvalidInstruction,
            ),
    {
        if start >= input.len() {
            return Err(ProcessError::Custom(TrustedPropertiesError::InvalidInstruction));
        }
        Ok(input[start])
    }

    /// Reads the 2-byte little-endian number at `start`.
    fn unpack_u16(input: &[u8], start: usize) -> (r: Result<u16, ProcessError>)
        ensures
            r is Ok <==> start + 2 <= input@.len(),
            r matches Ok(v) ==> v == le_value(input@.subrange(start as int, start + 2)),
            r matches Err(e) ==> e == ProcessError::Custom(
                TrustedPropertiesError::InvalidInstruction,
            ),
    {
        if start > input.len() || input.len() - start < 2 {
            return Err(ProcessError::Custom(TrustedPropertiesError::InvalidInstruction));
        }
        let v = read_le(input, start, 2);
        proof {
            lemma_pow256_8();
        }
        Ok(v as u16)
    }

    /// Reads the 8-byte little-endian number at `start`.
    fn unpack_u64(input: &[u8], start: usize) -> (r: Result<u64, ProcessError>)
        ensures
            r is Ok <==> start + 8 <= input@.len(),
            r matches Ok(v) ==> v == le_value(input@.subrange(start as int, start + 8)),
            r matches Err(e) ==> e == ProcessError::Custom(
                TrustedPropertiesError::InvalidInstruction,
            ),
    {
        if start > input.len() || input.len() - start < 8 {
            return Err(ProcessError::Custom(TrustedPropertiesError::InvalidInstruction));
        }
        Ok(read_le(input, start, 8))
    }
}

} // verus!
