//! The persistent escrow record and the arguments that every instruction carries.
use vstd::prelude::*;

use crate::codec::{le_bytes, le_value, read_key, read_u64_le, write_key, write_u64_le};
use crate::codec::{lemma_le_round_trip, lemma_pow256_8};

verus! {

/// A 32-byte ledger identity: an account address, an owner or a program.
pub type Key = [u8; 32];

/// Size in bytes of a stored escrow record.
pub const ESCROW_LEN: usize = 120;

/// One open escrow, as it is stored in its record account.
#[derive(Clone, Copy, Debug, PartialEq, Eq)]
pub struct Escrow {
    /// Per-escrow nonce; always zero in this design.
    pub seed: u64,
    /// Units of asset B that the maker wants in exchange.
    pub receive: u64,
    /// The maker's identity.
    pub maker: Key,
    /// The offered asset.
    pub mint_a: Key,
    /// The requested asset.
    pub mint_b: Key,
    /// The bump that re-derives the record's own address.
    pub bump: u64,
}

/// The argument record shared by the three instructions.
#[derive(Clone, Copy, Debug, PartialEq, Eq)]
pub struct EscrowArgs {
    pub maker: Key,
    pub taker: Option<Key>,
    pub amount: u64,
    pub receive: u64,
    pub escrow_bump: u8,
}

/// The stored bytes of a record: the two counters, the three keys and the bump.
pub open spec fn escrow_bytes(e: Escrow) -> Seq<u8> {
    le_bytes(e.seed as nat, 8) + le_bytes(e.receive as nat, 8) + e.maker@ + e.mint_a@
        + e.mint_b@ + le_bytes(e.bump as nat, 8)
}

/// The value of the little-endian `u64` at `at`.
pub open spec fn u64_at(s: Seq<u8>, at: int) -> u64 {
    le_value(s.subrange(at, at + 8)) as u64
}

/// The record that `s` holds, if it has the record's size.
pub open spec fn parse_escrow(s: Seq<u8>) -> Option<Escrow> {
    if s.len() == ESCROW_LEN {
        Some(
            Escrow {
                seed: u64_at(s, 0),
                receive: u64_at(s, 8),
                maker: key_of(s.subrange(16, 48)),
                mint_a: key_of(s.subrange(48, 80)),
                mint_b: key_of(s.subrange(80, 112)),
                bump: u64_at(s, 112),
            },
        )
    } else {
        None
    }
}

/// The key whose bytes are `s` (for a 32-byte `s`).
pub open spec fn key_of(s: Seq<u8>) -> Key {
    choose|k: Key| k@ == s
}

pub proof fn lemma_key_of(k: Key)
    ensures
        key_of(k@) == k,
{
    let w = k@;
    assert(exists|j: Key| #[trigger] j@ == w) by {
        assert(k@ == w);
    }
    let j = key_of(w);
    assert(j@ == k@);
    assert(j == k) by {
        vstd::array::axiom_array_ext_equal(j, k);
    }
}

impl Escrow {
    /// Size in bytes of a stored record.
    pub const LEN: usize = ESCROW_LEN;

    /// The record's stored bytes.
    pub fn to_bytes(&self) -> (r: Vec<u8>)
        ensures
            r@ == escrow_bytes(*self),
            r@.len() == ESCROW_LEN,
    {
        let mut out: Vec<u8> = Vec::new();
        write_u64_le(&mut out, self.seed);
        write_u64_le(&mut out, self.receive);
        write_key(&mut out, &self.maker);
        write_key(&mut out, &self.mint_a);
        write_key(&mut out, &self.mint_b);
        write_u64_le(&mut out, self.bump);
        proof {
            lemma_pow256_8();
            lemma_le_round_trip(self.seed as nat, 8);
            lemma_le_round_trip(self.receive as nat, 8);
            lemma_le_round_trip(self.bump as nat, 8);
        }
        out
    }

    /// Reads a record from exactly `ESCROW_LEN` bytes.
    pub fn from_bytes(data: &[u8]) -> (r: Option<Escrow>)
        ensures
            r == parse_escrow(data@),
    {
        if data.len() != ESCROW_LEN {
            return None;
        }
        let seed = read_u64_le(data, 0);
        let receive = read_u64_le(data, 8);
        let maker = read_key(data, 16);
        let mint_a = read_key(data, 48);
        let mint_b = read_key(data, 80);
        let bump = read_u64_le(data, 112);
        proof {
            lemma_key_of(maker);
            lemma_key_of(mint_a);
            lemma_key_of(mint_b);
        }
        Some(Escrow { seed, receive, maker, mint_a, mint_b, bump })
    }
}

/// Decoding the stored bytes of a record gives the record back.
pub proof fn lemma_escrow_round_trip(e: Escrow)
    ensures
        parse_escrow(escrow_bytes(e)) == Some(e),
{
    let s = escrow_bytes(e);
    lemma_pow256_8();
    lemma_le_round_trip(e.seed as nat, 8);
    lemma_le_round_trip(e.receive as nat, 8);
    lemma_le_round_trip(e.bump as nat, 8);
    assert(s.subrange(0, 8) =~= le_bytes(e.seed as nat, 8));
    assert(s.subrange(8, 16) =~= le_bytes(e.receive as nat, 8));
    assert(s.subrange(16, 48) =~= e.maker@);
    assert(s.subrange(48, 80) =~= e.mint_a@);
    assert(s.subrange(80, 112) =~= e.mint_b@);
    assert(s.subrange(112, 120) =~= le_bytes(e.bump as nat, 8));
    lemma_key_of(e.maker);
    lemma_key_of(e.mint_a);
    lemma_key_of(e.mint_b);
}

} // verus!
