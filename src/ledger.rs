//! What the library takes from the ledger's own crates: program identities,
//! derived addresses and the mint layout.
use vstd::prelude::*;

use solana_program::program_pack::Pack;
use solana_program::pubkey::Pubkey;

use crate::state::Key;

verus! {

/// Whether `k` is the token program's identity.
pub uninterp spec fn is_token_program_id(k: Seq<u8>) -> bool;

/// Whether `k` is the associated-token-account program's identity.
pub uninterp spec fn is_holding_factory_id(k: Seq<u8>) -> bool;

/// The address that the program `program` derives from `seeds`, or `None`
/// where the seeds derive no valid address.
pub uninterp spec fn program_address(seeds: Seq<Seq<u8>>, program: Seq<u8>) -> Option<Seq<u8>>;

/// The system program's identity is the all-zero key.
pub open spec fn is_system_program_id(k: Seq<u8>) -> bool {
    k.len() == 32 && forall|i: int| 0 <= i < 32 ==> k[i] == 0
}

/// Whether bytes `at .. at + 4` hold a valid option tag (`0` or `1`, then three zeros).
pub open spec fn option_tag_ok(s: Seq<u8>, at: int) -> bool {
    (s[at] == 0 || s[at] == 1) && s[at + 1] == 0 && s[at + 2] == 0 && s[at + 3] == 0
}

/// The decimals of the mint that `s` holds: 82 bytes, an optional authority at
/// 0, the decimals at 44, an initialized flag of 1 at 45 and an optional
/// freeze authority at 46.
pub open spec fn mint_decimals_of(s: Seq<u8>) -> Option<u8> {
    if s.len() == 82 && option_tag_ok(s, 0) && s[45] == 1 && option_tag_ok(s, 46) {
        Some(s[44])
    } else {
        None
    }
}

/// Relies on spl_token::check_id: compares with the token program's identity.
#[verifier::external_body]
pub(crate) fn is_token_program(k: &Key) -> (r: bool)
    ensures
        r == is_token_program_id(k@),
{
    spl_token::check_id(&Pubkey::new_from_array(*k))
}

/// Relies on spl_associated_token_account::check_id: compares with that
/// program's identity.
#[verifier::external_body]
pub(crate) fn is_holding_factory(k: &Key) -> (r: bool)
    ensures
        r == is_holding_factory_id(k@),
{
    spl_associated_token_account::check_id(&Pubkey::new_from_array(*k))
}

/// Relies on solana_program::system_program::check_id, whose identity is
/// declared as 32 zero bytes.
#[verifier::external_body]
pub(crate) fn is_system_program(k: &Key) -> (r: bool)
    ensures
        r == is_system_program_id(k@),
{
    solana_program::system_program::check_id(&Pubkey::new_from_array(*k))
}

/// Relies on Pubkey::create_program_address for the three seeds `tag`, `key`
/// and the one-byte `bump`.
#[verifier::external_body]
pub(crate) fn create_program_address(tag: &[u8], key: &Key, bump: u8, program_id: &Key) -> (r:
    Option<Key>)
    ensures
        match r {
            Some(a) => program_address(seq![tag@, key@, seq![bump]], program_id@) == Some(a@),
            None => program_address(seq![tag@, key@, seq![bump]], program_id@) is None,
        },
{
    let bump_seed = [bump];
    let seeds: [&[u8]; 3] = [tag, key.as_ref(), &bump_seed];
    Pubkey::create_program_address(&seeds, &Pubkey::new_from_array(*program_id))
        .ok()
        .map(|p| p.to_bytes())
}

/// Relies on spl_token::state::Mint::unpack (length, option tags and the
/// initialized flag), keeping the decimals.
#[verifier::external_body]
pub(crate) fn mint_decimals(data: &[u8]) -> (r: Option<u8>)
    ensures
        r == mint_decimals_of(data@),
{
    spl_token::state::Mint::unpack(data).ok().map(|m| m.decimals)
}

} // verus!
