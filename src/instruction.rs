//! The instruction wire format: a one-byte selector followed by the argument record.
use vstd::prelude::*;

use crate::codec::{le_bytes, read_key, read_u64_le, write_key, write_u64_le};
use crate::codec::{lemma_le_round_trip, lemma_pow256_8};
use crate::error::EscrowError;
use crate::state::{key_of, lemma_key_of, u64_at, EscrowArgs};

verus! {

/// The three operations, each with its arguments.
#[derive(Clone, Copy, Debug, PartialEq, Eq)]
pub enum EscrowInstruction {
    /// Open an escrow and deposit the offered amount.
    Make(EscrowArgs),
    /// Fulfill an open escrow by swapping both assets.
    Take(EscrowArgs),
    /// Cancel an open escrow and return the deposit.
    Refund(EscrowArgs),
}

/// The selector byte of each operation.
pub open spec fn tag_of(ix: EscrowInstruction) -> u8 {
    match ix {
        EscrowInstruction::Make(_) => 0,
        EscrowInstruction::Take(_) => 1,
        EscrowInstruction::Refund(_) => 2,
    }
}

pub open spec fn args_of(ix: EscrowInstruction) -> EscrowArgs {
    match ix {
        EscrowInstruction::Make(a) => a,
        EscrowInstruction::Take(a) => a,
        EscrowInstruction::Refund(a) => a,
    }
}

pub open spec fn with_tag(tag: u8, a: EscrowArgs) -> EscrowInstruction {
    if tag == 0 {
        EscrowInstruction::Make(a)
    } else if tag == 1 {
        EscrowInstruction::Take(a)
    } else {
        EscrowInstruction::Refund(a)
    }
}

/// The encoded arguments: maker, optional taker (flag byte, then the key if
/// present), amount, receive and bump.
pub open spec fn args_bytes(a: EscrowArgs) -> Seq<u8> {
    a.maker@ + match a.taker {
        None => seq![0u8],
        Some(t) => seq![1u8] + t@,
    } + le_bytes(a.amount as nat, 8) + le_bytes(a.receive as nat, 8) + seq![a.escrow_bump]
}

/// The encoded instruction.
pub open spec fn instruction_bytes(ix: EscrowInstruction) -> Seq<u8> {
    seq![tag_of(ix)] + args_bytes(args_of(ix))
}

/// The instruction that `s` encodes, when it encodes one with no bytes left over.
pub open spec fn parse_instruction(s: Seq<u8>) -> Option<EscrowInstruction> {
    if s.len() < 34 || s[0] > 2 || s[33] > 1 {
        None
    } else {
        let at: int = if s[33] == 0 { 34 } else { 66 };
        if s.len() != at + 17 {
            None
        } else {
            Some(
                with_tag(
                    s[0],
                    EscrowArgs {
                        maker: key_of(s.subrange(1, 33)),
                        taker: if s[33] == 0 { None } else { Some(key_of(s.subrange(34, 66))) },
                        amount: u64_at(s, at),
                        receive: u64_at(s, at + 8),
                        escrow_bump: s[at + 16],
                    },
                ),
            )
        }
    }
}

impl EscrowInstruction {
    /// Decodes an instruction; every byte must be used.
    pub fn try_from_slice(data: &[u8]) -> (r: Result<EscrowInstruction, EscrowError>)
        ensures
            match r {
                Ok(ix) => parse_instruction(data@) == Some(ix),
                Err(e) => parse_instruction(data@) is None && e == EscrowError::InvalidInstructionData,
            },
    {
        let n = data.len();
        if n < 34 || data[0] > 2 || data[33] > 1 {
            return Err(EscrowError::InvalidInstructionData);
        }
        let at: usize = if data[33] == 0 { 34 } else { 66 };
        if n != at + 17 {
            return Err(EscrowError::InvalidInstructionData);
        }
        let maker = read_key(data, 1);
        let taker = if data[33] == 0 { None } else { Some(read_key(data, 34)) };
        let amount = read_u64_le(data, at);
        let receive = read_u64_le(data, at + 8);
        let args = EscrowArgs { maker, taker, amount, receive, escrow_bump: data[at + 16] };
        proof {
            lemma_key_of(maker);
            if let Some(t) = taker {
                lemma_key_of(t);
            }
        }
        if data[0] == 0 {
            Ok(EscrowInstruction::Make(args))
        } else if data[0] == 1 {
            Ok(EscrowInstruction::Take(args))
        } else {
            Ok(EscrowInstruction::Refund(args))
        }
    }

    /// Encodes the instruction.
    pub fn to_bytes(&self) -> (r: Vec<u8>)
        ensures
            r@ == instruction_bytes(*self),
    {
        let (tag, a): (u8, EscrowArgs) = match *self {
            EscrowInstruction::Make(a) => (0, a),
            EscrowInstruction::Take(a) => (1, a),
            EscrowInstruction::Refund(a) => (2, a),
        };
        let mut out: Vec<u8> = Vec::new();
        out.push(tag);
        write_key(&mut out, &a.maker);
        match a.taker {
            None => out.push(0),
            Some(t) => {
                out.push(1);
                write_key(&mut out, &t);
            },
        }
        write_u64_le(&mut out, a.amount);
        write_u64_le(&mut out, a.receive);
        out.push(a.escrow_bump);
        assert(out@ =~= instruction_bytes(*self));
        out
    }
}

/// Decoding the encoding of an instruction gives the instruction back.
pub proof fn lemma_instruction_round_trip(ix: EscrowInstruction)
    ensures
        parse_instruction(instruction_bytes(ix)) == Some(ix),
{
    let a = args_of(ix);
    let s = instruction_bytes(ix);
    let at: int = if a.taker is None { 34 } else { 66 };
    lemma_pow256_8();
    lemma_le_round_trip(a.amount as nat, 8);
    lemma_le_round_trip(a.receive as nat, 8);
    lemma_key_of(a.maker);
    assert(s.subrange(1, 33) =~= a.maker@);
    if let Some(t) = a.taker {
        lemma_key_of(t);
        assert(s.subrange(34, 66) =~= t@);
    }
    assert(s[33] == if a.taker is None { 0u8 } else { 1u8 });
    assert(s.subrange(at, at + 8) =~= le_bytes(a.amount as nat, 8));
    assert(s.subrange(at + 8, at + 16) =~= le_bytes(a.receive as nat, 8));
    assert(s[at + 16] == a.escrow_bump);
}

} // verus!
