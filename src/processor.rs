//! Decodes an instruction and hands it to its handler.
use vstd::prelude::*;

use crate::action::{AccountView, Action};
use crate::error::EscrowError;
use crate::instruction::{parse_instruction, EscrowInstruction};
use crate::instructions::{make, make_outcome, refund, refund_outcome, take, take_outcome};
use crate::state::Key;

verus! {

/// What an instruction given as bytes yields.
pub open spec fn process_outcome(program_id: Key, accts: Seq<AccountView>, data: Seq<u8>) -> Result<
    Seq<Action>,
    EscrowError,
> {
    match parse_instruction(data) {
        None => Err(EscrowError::InvalidInstructionData),
        Some(EscrowInstruction::Make(a)) => make_outcome(program_id, accts, a),
        Some(EscrowInstruction::Take(a)) => take_outcome(program_id, accts, a),
        Some(EscrowInstruction::Refund(a)) => refund_outcome(program_id, accts, a),
    }
}

/// Decodes `data` and runs the matching handler on `accounts`.
pub fn process_instruction(program_id: &Key, accounts: &[AccountView], data: &[u8]) -> (r: Result<
    Vec<Action>,
    EscrowError,
>)
    ensures
        match r {
            Ok(acts) => process_outcome(*program_id, accounts@, data@) == Result::<
                Seq<Action>,
                EscrowError,
            >::Ok(acts@),
            Err(e) => process_outcome(*program_id, accounts@, data@) == Result::<
                Seq<Action>,
                EscrowError,
            >::Err(e),
        },
{
    let ix = match EscrowInstruction::try_from_slice(data) {
        Ok(ix) => ix,
        Err(e) => return Err(e),
    };
    match ix {
        EscrowInstruction::Make(a) => make(program_id, accounts, a),
        EscrowInstruction::Take(a) => take(program_id, accounts, a),
        EscrowInstruction::Refund(a) => refund(program_id, accounts, a),
    }
}

} // verus!
