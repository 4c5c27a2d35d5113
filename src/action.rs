//! What a handler sees of the accounts it is given, and the effects it asks
//! the host to perform, in order.
use vstd::prelude::*;

use crate::state::{Escrow, Key};

verus! {

/// One account supplied to an instruction.
#[derive(Clone, Debug)]
pub struct AccountView {
    pub key: Key,
    /// The program that owns the account.
    pub owner: Key,
    pub is_signer: bool,
    pub is_writable: bool,
    pub lamports: u64,
    pub data: Vec<u8>,
}

/// The right to sign as a record's derived address: the address together with
/// the seeds (maker and bump) that derive it.
#[derive(Clone, Copy, Debug, PartialEq, Eq)]
pub struct Capability {
    pub address: Key,
    pub maker: Key,
    pub bump: u8,
}

/// One effect, performed by the host or by a sub-program within the same
/// atomic call.
#[allow(inconsistent_fields)]
#[derive(Clone, Copy, Debug, PartialEq, Eq)]
pub enum Action {
    /// Allocate `space` bytes at `record` for `owner`, funded by `payer` to the
    /// rent-exempt minimum, signed as the record.
    CreateRecord { payer: Key, record: Key, space: u64, owner: Key, signer: Capability },
    /// Store `escrow` in the record's data.
    WriteRecord { record: Key, escrow: Escrow },
    /// Create the holding account of `wallet` for `mint`, paid by `payer`.
    CreateHoldingAccount { payer: Key, wallet: Key, mint: Key },
    /// A decimals-checked transfer of `amount` units of `mint`, authorized by
    /// `authority`, signed through `signer` where the authority is a record.
    Transfer {
        source: Key,
        mint: Key,
        destination: Key,
        authority: Key,
        amount: u64,
        decimals: u8,
        signer: Option<Capability>,
    },
    /// Zero the record's data and move its whole balance to `recipient`.
    CloseRecord { record: Key, recipient: Key },
    /// Close the holding account `vault`, its balance going to `recipient`,
    /// signed as the record `authority`.
    CloseVault { vault: Key, recipient: Key, authority: Key, signer: Capability },
}

} // verus!
