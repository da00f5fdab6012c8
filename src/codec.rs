//! Little-endian integers and the stored layout of an agreement record.

use vstd::prelude::*;
use crate::error::ProcessError;
use crate::state::{lemma_key_view_injective, AgreementStatus, Key, RentAgreementAccount};

verus! {

/// Size in bytes of a stored agreement record.
pub const RECORD_LEN: usize = 119;

/// `256` raised to `n`.
pub open spec fn pow256(n: nat) -> nat
    decreases n,
{
    if n == 0 {
        1
    } else {
        256 * pow256((n - 1) as nat)
    }
}

/// The number that bytes `s` spell, least significant byte first.
pub open spec fn le_value(s: Seq<u8>) -> nat
    decreases s.len(),
{
    if s.len() == 0 {
        0
    } else {
        s[0] as nat + 256 * le_value(s.drop_first())
    }
}

/// The `n` bytes that spell `v` (modulo `256` to the `n`), least significant first.
pub open spec fn le_bytes(v: nat, n: nat) -> Seq<u8>
    decreases n,
{
    if n == 0 {
        Seq::empty()
    } else {
        seq![(v % 256) as u8] + le_bytes(v / 256, (n - 1) as nat)
    }
}

/// The bytes that store record `r`, field after field in declaration order.
pub open spec fn record_bytes(r: RentAgreementAccount) -> Seq<u8> {
    seq![r.status.spec_to_byte()] + r.owner_pubkey@ + r.tenant_pubkey@
        + r.security_escrow_pubkey@ + le_bytes(r.security_deposit as nat, 8)
        + le_bytes(r.rent_amount as nat, 8) + seq![r.duration] + seq![r.remaining_payments]
        + seq![r.start_month] + le_bytes(r.start_year as nat, 2)
        + seq![r.duration_extension_request]
}

/// Whether `data` stores some record: the right size, and a status byte that
/// names a status.
pub open spec fn is_record_data(data: Seq<u8>) -> bool {
    data.len() == RECORD_LEN && AgreementStatus::spec_from_byte(data[0]) is Some
}

/// The record that `data` stores, if it stores one.
pub open spec fn parse_record(data: Seq<u8>) -> Option<RentAgreementAccount> {
    if exists|r: RentAgreementAccount| record_bytes(r) == data {
        Some(choose|r: RentAgreementAccount| record_bytes(r) == data)
    } else {
        None
    }
}

pub proof fn lemma_pow256_mono(a: nat, b: nat)
    requires
        a <= b,
    ensures
        pow256(a) <= pow256(b),
    decreases b,
{
    if a < b {
        lemma_pow256_mono(a, (b - 1) as nat);
    }
}

pub proof fn lemma_pow256_8()
    ensures
        pow256(8) == 0x1_0000_0000_0000_0000,
        pow256(2) == 0x1_0000,
{
    reveal_with_fuel(pow256, 9);
}

pub proof fn lemma_le_bytes_len(v: nat, n: nat)
    ensures
        le_bytes(v, n).len() == n,
    decreases n,
{
    if n > 0 {
        lemma_le_bytes_len(v / 256, (n - 1) as nat);
    }
}

/// Spelling a number that fits and reading it back gives the number.
pub proof fn lemma_le_value_of_bytes(v: nat, n: nat)
    requires
        v < pow256(n),
    ensures
        le_value(le_bytes(v, n)) == v,
    decreases n,
{
    if n == 0 {
    } else {
        let s = le_bytes(v, n);
        let rest = le_bytes(v / 256, (n - 1) as nat);
        lemma_le_bytes_len(v, n);
        assert(s.drop_first() =~= rest);
        assert(v / 256 < pow256((n - 1) as nat)) by (nonlinear_arith)
            requires
                v < 256 * pow256((n - 1) as nat),
        ;
        lemma_le_value_of_bytes(v / 256, (n - 1) as nat);
        assert(v == v % 256 + 256 * (v / 256)) by (nonlinear_arith);
    }
}

/// Reading bytes as a number and spelling it back gives the bytes.
pub proof fn lemma_le_bytes_of_value(s: Seq<u8>)
    ensures
        le_bytes(le_value(s), s.len()) == s,
    decreases s.len(),
{
    if s.len() > 0 {
        let a = s[0] as nat;
        let b = le_value(s.drop_first());
        lemma_le_bytes_of_value(s.drop_first());
        assert((a + 256 * b) % 256 == a && (a + 256 * b) / 256 == b) by (nonlinear_arith)
            requires
                a < 256,
        ;
        assert(le_bytes(le_value(s), s.len()) =~= s);
    }
}

/// Reads the `n`-byte little-endian number at `off`.
pub(crate) fn read_le(data: &[u8], off: usize, n: usize) -> (v: u64)
    requires
        n <= 8,
        off + n <= data.len(),
    ensures
        v as nat == le_value(data@.subrange(off as int, off + n)),
        (v as nat) < pow256(n as nat),
{
    let end: usize = off + n;
    let mut v: u64 = 0;
    let mut i: usize = end;
    while i > off
        invariant
            off <= i <= end,
            end == off + n,
            end <= data@.len(),
            n <= 8,
            v as nat == le_value(data@.subrange(i as int, end as int)),
            (v as nat) < pow256((end - i) as nat),
        decreases i,
    {
        proof {
            lemma_pow256_mono((end - i + 1) as nat, 8);
            lemma_pow256_8();
            assert(data@.subrange(i - 1, end as int).drop_first() =~= data@.subrange(
                i as int,
                end as int,
            ));
        }
        i = i - 1;
        v = v * 256 + data[i] as u64;
    }
    v
}

/// Appends the `n` bytes that spell `v`, least significant first.
fn write_le(out: &mut Vec<u8>, v: u64, n: usize)
    requires
        n <= 8,
    ensures
        final(out)@ == old(out)@ + le_bytes(v as nat, n as nat),
{
    let mut x: u64 = v;
    let mut k: usize = 0;
    while k < n
        invariant
            k <= n,
            out@ + le_bytes(x as nat, (n - k) as nat) == old(out)@ + le_bytes(v as nat, n as nat),
        decreases n - k,
    {
        let ghost before = out@;
        out.push((x % 256) as u8);
        proof {
            assert(out@ + le_bytes((x / 256) as nat, (n - k - 1) as nat) =~= before + le_bytes(
                x as nat,
                (n - k) as nat,
            ));
        }
        x = x / 256;
        k = k + 1;
    }
    proof {
        assert(out@ + le_bytes(x as nat, 0) =~= out@);
    }
}

/// Reads the key stored in the 32 bytes at `off`.
pub(crate) fn read_key(data: &[u8], off: usize) -> (k: Key)
    requires
        off + 32 <= data.len(),
    ensures
        k@ == data@.subrange(off as int, off + 32),
{
    let mut bytes: [u8; 32] = [0u8; 32];
    let mut i: usize = 0;
    while i < 32
        invariant
            i <= 32,
            off + 32 <= data.len(),
            bytes@.len() == 32,
            forall|j: int| 0 <= j < i ==> bytes@[j] == data@[off + j],
        decreases 32 - i,
    {
        bytes[i] = data[off + i];
        i = i + 1;
    }
    let k = Key { bytes };
    assert(k@ =~= data@.subrange(off as int, off + 32));
    k
}

/// Appends the 32 bytes of `k`.
fn write_key(out: &mut Vec<u8>, k: &Key)
    ensures
        final(out)@ == old(out)@ + k@,
{
    let mut i: usize = 0;
    while i < 32
        invariant
            i <= 32,
            k@.len() == 32,
            out@ == old(out)@ + k@.subrange(0, i as int),
        decreases 32 - i,
    {
        out.push(k.bytes[i]);
        proof {
            assert(out@ =~= old(out)@ + k@.subrange(0, i + 1));
        }
        i = i + 1;
    }
    assert(k@.subrange(0, 32) =~= k@);
}

/// Where each field stands in the bytes of a record.
pub proof fn lemma_record_bytes_fields(r: RentAgreementAccount)
    ensures
        record_bytes(r).len() == RECORD_LEN,
        record_bytes(r)[0] == r.status.spec_to_byte(),
        record_bytes(r).subrange(1, 33) == r.owner_pubkey@,
        record_bytes(r).subrange(33, 65) == r.tenant_pubkey@,
        record_bytes(r).subrange(65, 97) == r.security_escrow_pubkey@,
        record_bytes(r).subrange(97, 105) == le_bytes(r.security_deposit as nat, 8),
        record_bytes(r).subrange(105, 113) == le_bytes(r.rent_amount as nat, 8),
        record_bytes(r)[113] == r.duration,
        record_bytes(r)[114] == r.remaining_payments,
        record_bytes(r)[115] == r.start_month,
        record_bytes(r).subrange(116, 118) == le_bytes(r.start_year as nat, 2),
        record_bytes(r)[118] == r.duration_extension_request,
{
    lemma_le_bytes_len(r.security_deposit as nat, 8);
    lemma_le_bytes_len(r.rent_amount as nat, 8);
    lemma_le_bytes_len(r.start_year as nat, 2);
    let s = record_bytes(r);
    assert(s.subrange(1, 33) =~= r.owner_pubkey@);
    assert(s.subrange(33, 65) =~= r.tenant_pubkey@);
    assert(s.subrange(65, 97) =~= r.security_escrow_pubkey@);
    assert(s.subrange(97, 105) =~= le_bytes(r.security_deposit as nat, 8));
    assert(s.subrange(105, 113) =~= le_bytes(r.rent_amount as nat, 8));
    assert(s.subrange(116, 118) =~= le_bytes(r.start_year as nat, 2));
}

/// Distinct records are stored as distinct bytes.
pub proof fn lemma_record_bytes_injective(a: RentAgreementAccount, b: RentAgreementAccount)
    requires
        record_bytes(a) == record_bytes(b),
    ensures
        a == b,
{
    lemma_record_bytes_fields(a);
    lemma_record_bytes_fields(b);
    lemma_key_view_injective(a.owner_pubkey, b.owner_pubkey);
    lemma_key_view_injective(a.tenant_pubkey, b.tenant_pubkey);
    lemma_key_view_injective(a.security_escrow_pubkey, b.security_escrow_pubkey);
    lemma_pow256_8();
    lemma_le_value_of_bytes(a.security_deposit as nat, 8);
    lemma_le_value_of_bytes(b.security_deposit as nat, 8);
    lemma_le_value_of_bytes(a.rent_amount as nat, 8);
    lemma_le_value_of_bytes(b.rent_amount as nat, 8);
    lemma_le_value_of_bytes(a.start_year as nat, 2);
    lemma_le_value_of_bytes(b.start_year as nat, 2);
}

/// A stored record reads back as itself.
pub proof fn lemma_parse_record_bytes(r: RentAgreementAccount)
    ensures
        parse_record(record_bytes(r)) == Some(r),
        is_record_data(record_bytes(r)),
{
    lemma_record_bytes_fields(r);
    let r2 = choose|x: RentAgreementAccount| record_bytes(x) == record_bytes(r);
    lemma_record_bytes_injective(r2, r);
}

impl RentAgreementAccount {
    /// Decodes a stored record. It fails, with `InvalidAccountData`, exactly
    /// when the bytes are not of the record's size or the status byte names
    /// no status.
    pub fn unpack(data: &[u8]) -> (r: Result<RentAgreementAccount, ProcessError>)
        ensures
            r is Ok <==> is_record_data(data@),
            r matches Ok(rec) ==> parse_record(data@) == Some(rec) && record_bytes(rec) == data@,
            r matches Err(e) ==> e == ProcessError::InvalidAccountData,
    {
        if data.len() != RECORD_LEN {
            return Err(ProcessError::InvalidAccountData);
        }
        let status = match AgreementStatus::from_byte(data[0]) {
            Some(s) => s,
            None => {
                return Err(ProcessError::InvalidAccountData);
            },
        };
        let owner_pubkey = read_key(data, 1);
        let tenant_pubkey = read_key(data, 33);
        let security_escrow_pubkey = read_key(data, 65);
        let security_deposit = read_le(data, 97, 8);
        let rent_amount = read_le(data, 105, 8);
        let start_year = read_le(data, 116, 2);
        proof {
            lemma_pow256_8();
        }
        let rec = RentAgreementAccount {
            status,
            owner_pubkey,
            tenant_pubkey,
            security_escrow_pubkey,
            security_deposit,
            rent_amount,
            duration: data[113],
            remaining_payments: data[114],
            start_month: data[115],
            start_year: start_year as u16,
            duration_extension_request: data[118],
        };
        proof {
            let d = data@;
            lemma_le_bytes_of_value(d.subrange(97, 105));
            lemma_le_bytes_of_value(d.subrange(105, 113));
            lemma_le_bytes_of_value(d.subrange(116, 118));
            lemma_record_bytes_fields(rec);
            let s = record_bytes(rec);
            assert(s.subrange(0, 1) =~= d.subrange(0, 1));
            assert(s.subrange(113, 116) =~= d.subrange(113, 116));
            assert(s.subrange(118, 119) =~= d.subrange(118, 119));
            assert forall|i: int| 0 <= i < RECORD_LEN implies s[i] == d[i] by {
                if i < 1 {
                    assert(s.subrange(0, 1)[i] == d.subrange(0, 1)[i]);
                } else if i < 33 {
                    assert(s.subrange(1, 33)[i - 1] == d.subrange(1, 33)[i - 1]);
                } else if i < 65 {
                    assert(s.subrange(33, 65)[i - 33] == d.subrange(33, 65)[i - 33]);
                } else if i < 97 {
                    assert(s.subrange(65, 97)[i - 65] == d.subrange(65, 97)[i - 65]);
                } else if i < 105 {
                    assert(s.subrange(97, 105)[i - 97] == d.subrange(97, 105)[i - 97]);
                } else if i < 113 {
                    assert(s.subrange(105, 113)[i - 105] == d.subrange(105, 113)[i - 105]);
                } else if i < 116 {
                    assert(s.subrange(113, 116)[i - 113] == d.subrange(113, 116)[i - 113]);
                } else if i < 118 {
                    assert(s.subrange(116, 118)[i - 116] == d.subrange(116, 118)[i - 116]);
                } else {
                    assert(s.subrange(118, 119)[i - 118] == d.subrange(118, 119)[i - 118]);
                }
            }
            assert(s =~= d);
            lemma_parse_record_bytes(rec);
        }
        Ok(rec)
    }

    /// Encodes the record in its stored layout.
    pub fn pack(&self) -> (out: Vec<u8>)
        ensures
            out@ == record_bytes(*self),
            out@.len() == RECORD_LEN,
    {
        let mut out: Vec<u8> = Vec::new();
        out.push(self.status.to_byte());
        write_key(&mut out, &self.owner_pubkey);
        write_key(&mut out, &self.tenant_pubkey);
        write_key(&mut out, &self.security_escrow_pubkey);
        write_le(&mut out, self.security_deposit, 8);
        write_le(&mut out, self.rent_amount, 8);
        out.push(self.duration);
        out.push(self.remaining_payments);
        out.push(self.start_month);
        write_le(&mut out, self.start_year as u64, 2);
        out.push(self.duration_extension_request);
        proof {
            lemma_record_bytes_fields(*self);
            assert(out@ =~= record_bytes(*self));
        }
        out
    }
}

} // verus!
