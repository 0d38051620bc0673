use vstd::prelude::*;
use vstd::bytes::{
    lemma_auto_spec_u64_to_from_le_bytes, spec_u64_from_le_bytes, spec_u64_to_le_bytes,
    u64_from_le_bytes, u64_to_le_bytes,
};
use vstd::slice::slice_subrange;
use crate::identity::Identity;

verus! {

/// The registry record: marks that an owner identity has registered with
/// the vault program. Created once via an explicitly supplied address and
/// never mutated afterwards.
#[derive(Clone, Copy, Debug, PartialEq, Eq)]
pub struct Vault {
    pub owner: Identity,
}

/// The custody record held at the derived address: the identity allowed to
/// deposit and withdraw, the balance of native currency, the time of the
/// most recent deposit, and whether the one-shot withdrawal has completed.
#[derive(Clone, Copy, Debug, PartialEq, Eq)]
pub struct Pda {
    pub signer: Identity,
    pub balance: u64,
    pub deposit_time: i64,
    pub done: bool,
}

/// Encoded size in bytes of a custody record: a 32-byte identity, two
/// 8-byte little-endian integers, and one boolean byte.
pub const PDA_RECORD_SIZE: usize = 49;

/// Encoded size in bytes of a registry record: a 32-byte identity.
pub const VAULT_RECORD_SIZE: usize = 32;

/// The two's-complement image of a signed timestamp in an unsigned word.
pub open spec fn spec_u64_of_i64(x: i64) -> u64 {
    if x >= 0 {
        x as u64
    } else {
        (x + 0x1_0000_0000_0000_0000) as u64
    }
}

/// Inverse of `spec_u64_of_i64`.
pub open spec fn spec_i64_of_u64(x: u64) -> i64 {
    if x < 0x8000_0000_0000_0000 {
        x as i64
    } else {
        (x - 0x1_0000_0000_0000_0000) as i64
    }
}

pub proof fn lemma_i64_u64_round_trip(x: i64)
    ensures
        spec_i64_of_u64(spec_u64_of_i64(x)) == x,
{
}

pub fn u64_of_i64(x: i64) -> (r: u64)
    ensures
        r == spec_u64_of_i64(x),
{
    if x >= 0 {
        x as u64
    } else {
        let wide: i128 = (x as i128) + 0x1_0000_0000_0000_0000i128;
        wide as u64
    }
}

pub fn i64_of_u64(x: u64) -> (r: i64)
    ensures
        r == spec_i64_of_u64(x),
{
    if x < 0x8000_0000_0000_0000u64 {
        x as i64
    } else {
        let wide: i128 = (x as i128) - 0x1_0000_0000_0000_0000i128;
        wide as i64
    }
}

/// A boolean persisted as a single byte.
pub open spec fn spec_bool_byte(b: bool) -> u8 {
    if b {
        1
    } else {
        0
    }
}

/// The fixed-width encoding of a custody record: signer bytes, then the
/// balance and the deposit time as little-endian words, then the done byte.
pub open spec fn spec_encode_pda(p: Pda) -> Seq<u8> {
    p.signer@ + spec_u64_to_le_bytes(p.balance) + spec_u64_to_le_bytes(
        spec_u64_of_i64(p.deposit_time),
    ) + seq![spec_bool_byte(p.done)]
}

/// The fixed-width encoding of a registry record: the owner bytes alone.
pub open spec fn spec_encode_vault(v: Vault) -> Seq<u8> {
    v.owner@
}

/// Whether a byte sequence is the encoding of some custody record: the
/// exact record size, with a valid boolean byte at the end.
pub open spec fn spec_valid_pda_bytes(s: Seq<u8>) -> bool {
    s.len() == PDA_RECORD_SIZE && (s[48] == 0 || s[48] == 1)
}

pub fn encode_pda(p: &Pda) -> (out: Vec<u8>)
    ensures
        out@ == spec_encode_pda(*p),
        out@.len() == PDA_RECORD_SIZE,
{
    let mut out: Vec<u8> = Vec::new();
    let mut i: usize = 0;
    while i < 32
        invariant
            i <= 32,
            out@ =~= p.signer@.subrange(0, i as int),
        decreases 32 - i,
    {
        out.push(p.signer.0[i]);
        i = i + 1;
    }
    let mut bal = u64_to_le_bytes(p.balance);
    out.append(&mut bal);
    let mut ts = u64_to_le_bytes(u64_of_i64(p.deposit_time));
    out.append(&mut ts);
    out.push(if p.done { 1 } else { 0 });
    proof {
        assert(p.signer@.subrange(0, 32) =~= p.signer@);
        assert(out@ =~= spec_encode_pda(*p));
    }
    out
}

pub fn decode_pda(data: &Vec<u8>) -> (r: Option<Pda>)
    ensures
        match r {
            Some(p) => data@ == spec_encode_pda(p),
            None => !spec_valid_pda_bytes(data@),
        },
{
    if data.len() != PDA_RECORD_SIZE {
        return None;
    }
    let done_byte: u8 = data[48];
    if done_byte != 0 && done_byte != 1 {
        return None;
    }
    let mut signer_bytes: [u8; 32] = [0u8; 32];
    let mut i: usize = 0;
    while i < 32
        invariant
            i <= 32,
            data@.len() == PDA_RECORD_SIZE,
            forall|j: int| 0 <= j < i ==> signer_bytes@[j] == data@[j],
        decreases 32 - i,
    {
        signer_bytes[i] = data[i];
        i = i + 1;
    }
    let balance = u64_from_le_bytes(slice_subrange(data.as_slice(), 32, 40));
    let ts_word = u64_from_le_bytes(slice_subrange(data.as_slice(), 40, 48));
    let p = Pda {
        signer: Identity(signer_bytes),
        balance,
        deposit_time: i64_of_u64(ts_word),
        done: done_byte == 1,
    };
    proof {
        lemma_auto_spec_u64_to_from_le_bytes();
        assert(spec_u64_of_i64(spec_i64_of_u64(ts_word)) == ts_word);
        assert(data@ =~= spec_encode_pda(p));
    }
    Some(p)
}

pub fn encode_vault(v: &Vault) -> (out: Vec<u8>)
    ensures
        out@ == spec_encode_vault(*v),
        out@.len() == VAULT_RECORD_SIZE,
{
    let mut out: Vec<u8> = Vec::new();
    let mut i: usize = 0;
    while i < 32
        invariant
            i <= 32,
            out@ =~= v.owner@.subrange(0, i as int),
        decreases 32 - i,
    {
        out.push(v.owner.0[i]);
        i = i + 1;
    }
    proof {
        assert(v.owner@.subrange(0, 32) =~= v.owner@);
    }
    out
}

pub fn decode_vault(data: &Vec<u8>) -> (r: Option<Vault>)
    ensures
        match r {
            Some(v) => data@ == spec_encode_vault(v),
            None => data@.len() != VAULT_RECORD_SIZE,
        },
{
    if data.len() != VAULT_RECORD_SIZE {
        return None;
    }
    let mut owner_bytes: [u8; 32] = [0u8; 32];
    let mut i: usize = 0;
    while i < 32
        invariant
            i <= 32,
            data@.len() == VAULT_RECORD_SIZE,
            forall|j: int| 0 <= j < i ==> owner_bytes@[j] == data@[j],
        decreases 32 - i,
    {
        owner_bytes[i] = data[i];
        i = i + 1;
    }
    let v = Vault { owner: Identity(owner_bytes) };
    proof {
        assert(data@ =~= spec_encode_vault(v));
    }
    Some(v)
}

/// Law: the custody-record codec round-trips, so the persisted bytes of a
/// record decode to exactly that record.
pub proof fn lemma_pda_codec_round_trip(p: Pda)
    ensures
        spec_valid_pda_bytes(spec_encode_pda(p)),
        forall|q: Pda| spec_encode_pda(q) == spec_encode_pda(p) ==> q == p,
{
    lemma_auto_spec_u64_to_from_le_bytes();
    let s = spec_encode_pda(p);
    assert(s[48] == spec_bool_byte(p.done));
    assert forall|q: Pda| spec_encode_pda(q) == spec_encode_pda(p) implies q == p by {
        let t = spec_encode_pda(q);
        assert forall|j: int| 0 <= j < 32 implies q.signer@[j] == p.signer@[j] by {
            assert(t[j] == q.signer@[j]);
            assert(s[j] == p.signer@[j]);
        }
        assert(q.signer@ =~= p.signer@);
        assert(q.signer.0 =~= p.signer.0);
        assert forall|j: int|
            0 <= j < 8 implies spec_u64_to_le_bytes(q.balance)[j] == spec_u64_to_le_bytes(
            p.balance,
        )[j] by {
            assert(t[32 + j] == spec_u64_to_le_bytes(q.balance)[j]);
            assert(s[32 + j] == spec_u64_to_le_bytes(p.balance)[j]);
        }
        assert(spec_u64_to_le_bytes(q.balance) =~= spec_u64_to_le_bytes(p.balance));
        assert(q.balance == p.balance) by {
            assert(spec_u64_from_le_bytes(spec_u64_to_le_bytes(q.balance)) == q.balance);
            assert(spec_u64_from_le_bytes(spec_u64_to_le_bytes(p.balance)) == p.balance);
        }
        assert forall|j: int|
            0 <= j < 8 implies spec_u64_to_le_bytes(spec_u64_of_i64(q.deposit_time))[j]
            == spec_u64_to_le_bytes(spec_u64_of_i64(p.deposit_time))[j] by {
            assert(t[40 + j] == spec_u64_to_le_bytes(spec_u64_of_i64(q.deposit_time))[j]);
            assert(s[40 + j] == spec_u64_to_le_bytes(spec_u64_of_i64(p.deposit_time))[j]);
        }
        assert(spec_u64_to_le_bytes(spec_u64_of_i64(q.deposit_time)) =~= spec_u64_to_le_bytes(
            spec_u64_of_i64(p.deposit_time),
        ));
        assert(q.deposit_time == p.deposit_time) by {
            assert(spec_u64_from_le_bytes(spec_u64_to_le_bytes(spec_u64_of_i64(q.deposit_time)))
                == spec_u64_of_i64(q.deposit_time));
            assert(spec_u64_from_le_bytes(spec_u64_to_le_bytes(spec_u64_of_i64(p.deposit_time)))
                == spec_u64_of_i64(p.deposit_time));
            lemma_i64_u64_round_trip(q.deposit_time);
            lemma_i64_u64_round_trip(p.deposit_time);
        }
        assert(q.done == p.done) by {
            assert(t[48] == spec_bool_byte(q.done));
            assert(s[48] == spec_bool_byte(p.done));
        }
    }
}

} // verus!
