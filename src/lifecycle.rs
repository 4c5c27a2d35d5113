//! Laws of the escrow's life cycle, proved over the handlers' outcomes.
use vstd::prelude::*;

use crate::action::{AccountView, Action};
use crate::instructions::{
    escrow_address, make_outcome, open_record_of, refund_outcome, take_outcome,
};
use crate::ledger::mint_decimals_of;
use crate::state::{EscrowArgs, Key};

verus! {

/// Whether every transfer in `acts` carries the decimals that its mint, as
/// supplied among `accts`, declares.
pub open spec fn transfers_use_declared_decimals(acts: Seq<Action>, accts: Seq<AccountView>) -> bool {
    forall|i: int|
        0 <= i < acts.len() ==> match #[trigger] acts[i] {
            Action::Transfer { mint, decimals, .. } => exists|j: int|
                0 <= j < accts.len() && #[trigger] accts[j].key@ == mint@ && mint_decimals_of(
                    accts[j].data@,
                ) == Some(decimals),
            _ => true,
        }
}

/// A record address is a function of the maker, the bump and the program:
/// two derivations from the same inputs give the same address.
pub proof fn lemma_derivation_determined(maker: Key, bump: u8, program_id: Key, a: Key, b: Key)
    requires
        escrow_address(maker@, bump, program_id@) == Some(a@),
        escrow_address(maker@, bump, program_id@) == Some(b@),
    ensures
        a == b,
{
    assert(a@ == b@);
    assert(a =~= b);
}

/// Opening with a bump that does not derive the supplied record address fails,
/// so nothing is performed.
pub proof fn lemma_make_rejects_underived_record(program_id: Key, accts: Seq<AccountView>, args: EscrowArgs)
    requires
        accts.len() >= 9,
        escrow_address(accts[0].key@, args.escrow_bump, program_id@) != Some(accts[4].key@),
    ensures
        make_outcome(program_id, accts, args) is Err,
{
}

/// Fulfilling or cancelling against a record whose stored bump does not
/// derive the supplied record address fails.
pub proof fn lemma_settle_rejects_underived_record(program_id: Key, take_accts: Seq<AccountView>, refund_accts: Seq<AccountView>, args: EscrowArgs)
    requires
        take_accts.len() >= 11 ==> (open_record_of(program_id, take_accts[7]) matches Ok(rec) && (rec.bump > 255
            || escrow_address(take_accts[1].key@, rec.bump as u8, program_id@) != Some(take_accts[7].key@))),
        refund_accts.len() >= 7 ==> (open_record_of(program_id, refund_accts[3]) matches Ok(rec) && (rec.bump > 255
            || escrow_address(refund_accts[0].key@, rec.bump as u8, program_id@) != Some(refund_accts[3].key@))),
    ensures
        take_outcome(program_id, take_accts, args) is Err,
        refund_outcome(program_id, refund_accts, args) is Err,
{
}

/// Opening at a record address that already holds data fails, so a second
/// open for the same maker moves nothing.
pub proof fn lemma_no_double_open(program_id: Key, accts: Seq<AccountView>, args: EscrowArgs)
    requires
        accts.len() >= 9,
        accts[4].data@.len() != 0,
    ensures
        make_outcome(program_id, accts, args) is Err,
{
}

/// A successful open allocates the record at the supplied address and fills it,
/// so that address holds data from then on.
pub proof fn lemma_open_occupies_record(program_id: Key, accts: Seq<AccountView>, args: EscrowArgs)
    requires
        make_outcome(program_id, accts, args) is Ok,
    ensures
        ({
            let acts = make_outcome(program_id, accts, args)->Ok_0;
            &&& acts[0] matches Action::CreateRecord { record, space, .. } && record == accts[4].key
                && space > 0
            &&& acts[1] matches Action::WriteRecord { record, .. } && record == accts[4].key
        }),
{
}

/// Fulfilling or cancelling against a record account that is empty or closed
/// (no data, or no balance) fails.
pub proof fn lemma_no_settle_on_closed(program_id: Key, take_accts: Seq<AccountView>, refund_accts: Seq<AccountView>, args: EscrowArgs)
    requires
        take_accts.len() >= 11 ==> take_accts[7].data@.len() == 0 || take_accts[7].lamports == 0,
        refund_accts.len() >= 7 ==> refund_accts[3].data@.len() == 0 || refund_accts[3].lamports == 0,
    ensures
        take_outcome(program_id, take_accts, args) is Err,
        refund_outcome(program_id, refund_accts, args) is Err,
{
}

/// Every transfer that a handler asks for carries the decimals that its mint
/// declares.
pub proof fn lemma_transfers_use_declared_decimals(program_id: Key, accts: Seq<AccountView>, args: EscrowArgs)
    ensures
        make_outcome(program_id, accts, args) matches Ok(acts) ==> transfers_use_declared_decimals(acts, accts),
        take_outcome(program_id, accts, args) matches Ok(acts) ==> transfers_use_declared_decimals(acts, accts),
        refund_outcome(program_id, accts, args) matches Ok(acts) ==> transfers_use_declared_decimals(acts, accts),
{
    if make_outcome(program_id, accts, args) is Ok {
        let acts = make_outcome(program_id, accts, args)->Ok_0;
        assert(accts[1].key@ == accts[1].key@);
        assert(transfers_use_declared_decimals(acts, accts));
    }
    if take_outcome(program_id, accts, args) is Ok {
        let acts = take_outcome(program_id, accts, args)->Ok_0;
        assert(accts[2].key@ == accts[2].key@);
        assert(accts[3].key@ == accts[3].key@);
        assert(transfers_use_declared_decimals(acts, accts));
    }
    if refund_outcome(program_id, accts, args) is Ok {
        let acts = refund_outcome(program_id, accts, args)->Ok_0;
        assert(accts[1].key@ == accts[1].key@);
        assert(transfers_use_declared_decimals(acts, accts));
    }
}

} // verus!
