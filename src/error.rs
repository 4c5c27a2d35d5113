//! Why an instruction is refused.
use vstd::prelude::*;

verus! {

/// The reasons for which an instruction aborts before any effect.
#[derive(Clone, Copy, Debug, PartialEq, Eq, Structural)]
pub enum EscrowError {
    /// The instruction bytes are not a well-formed instruction.
    InvalidInstructionData,
    /// Fewer accounts were supplied than the instruction reads.
    NotEnoughAccountKeys,
    /// A program account is not the program it stands for.
    IncorrectProgramId,
    /// An account that must sign did not.
    MissingRequiredSignature,
    /// An account that must be writable is not.
    AccountNotWritable,
    /// An account is not owned by the program that must own it.
    IllegalOwner,
    /// An asset account does not hold a well-formed, initialized mint.
    InvalidMint,
    /// The record address already holds data.
    AccountAlreadyInUse,
    /// The record address is not the one derived from the maker and the bump.
    InvalidSeeds,
    /// The vault already exists.
    VaultAlreadyExists,
    /// The record account holds no open escrow.
    InvalidAccountData,
    /// A supplied account differs from the one the record names.
    RecordMismatch,
    /// A balance would overflow.
    ArithmeticOverflow,
}

} // verus!
