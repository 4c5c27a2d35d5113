//! Token custody across a call: how a handler's effects move balances between
//! holding accounts, with the host's all-or-nothing commit.
use vstd::prelude::*;

use crate::action::{AccountView, Action};
use crate::instructions::{
    create_if_vacant, make_outcome, open_record_of, opened_record, refund_outcome, take_outcome,
};
use crate::ledger::mint_decimals_of;
use crate::state::{escrow_bytes, lemma_escrow_round_trip, EscrowArgs, Key};

verus! {

/// Token balances by holding-account address.
pub type Balances = Map<Seq<u8>, int>;

/// The decimals that each mint declares, by mint address.
pub type Declared = Map<Seq<u8>, u8>;

/// Whether `declared` agrees with what the supplied account holds, where that
/// account is a mint it knows.
pub open spec fn agrees(declared: Declared, a: AccountView) -> bool {
    declared.contains_key(a.key@) ==> mint_decimals_of(a.data@) == Some(declared[a.key@])
}

/// The balance of `k`; an account never credited holds nothing.
pub open spec fn balance(bal: Balances, k: Seq<u8>) -> int {
    if bal.contains_key(k) {
        bal[k]
    } else {
        0
    }
}

/// The balances after one effect, or `None` where it fails: a transfer needs
/// the decimals that its mint declares and the amount in its source, and a
/// vault closes only when empty. The other
/// effects move no tokens.
pub open spec fn apply(bal: Balances, declared: Declared, act: Action) -> Option<Balances> {
    match act {
        Action::Transfer { source, mint, destination, amount, decimals, .. } => {
            if declared.contains_key(mint@) && declared[mint@] != decimals {
                None
            } else if balance(bal, source@) < amount {
                None
            } else {
                let debited = bal.insert(source@, balance(bal, source@) - amount);
                Some(debited.insert(destination@, balance(debited, destination@) + amount))
            }
        },
        Action::CloseVault { vault, .. } => {
            if balance(bal, vault@) != 0 {
                None
            } else {
                Some(bal)
            }
        },
        _ => Some(bal),
    }
}

/// The balances after all of `acts` in order, or `None` where one fails.
pub open spec fn run(bal: Balances, declared: Declared, acts: Seq<Action>) -> Option<Balances>
    decreases acts.len(),
{
    if acts.len() == 0 {
        Some(bal)
    } else {
        match apply(bal, declared, acts[0]) {
            None => None,
            Some(next) => run(next, declared, acts.drop_first()),
        }
    }
}

/// What a call leaves behind: every effect, or none of them.
pub open spec fn commit(bal: Balances, declared: Declared, acts: Seq<Action>) -> Balances {
    match run(bal, declared, acts) {
        Some(b) => b,
        None => bal,
    }
}

pub proof fn lemma_run_cons(bal: Balances, declared: Declared, act: Action, rest: Seq<Action>)
    ensures
        run(bal, declared, seq![act] + rest) == match apply(bal, declared, act) {
            None => None,
            Some(next) => run(next, declared, rest),
        },
{
    assert((seq![act] + rest).drop_first() =~= rest);
}

pub proof fn lemma_run_concat(bal: Balances, declared: Declared, a: Seq<Action>, b: Seq<Action>)
    ensures
        run(bal, declared, a + b) == match run(bal, declared, a) {
            None => None,
            Some(mid) => run(mid, declared, b),
        },
    decreases a.len(),
{
    if a.len() == 0 {
        assert(a + b =~= b);
    } else {
        assert((a + b).drop_first() =~= a.drop_first() + b);
        assert((a + b)[0] == a[0]);
        if let Some(next) = apply(bal, declared, a[0]) {
            lemma_run_concat(next, declared, a.drop_first(), b);
        }
    }
}

pub proof fn lemma_create_if_vacant_moves_nothing(bal: Balances, declared: Declared, ata: AccountView, owner: Key, mint: Key, rest: Seq<Action>)
    ensures
        run(bal, declared, create_if_vacant(ata, owner, mint) + rest) == run(bal, declared, rest),
{
    let c = create_if_vacant(ata, owner, mint);
    lemma_run_concat(bal, declared, c, rest);
    if c.len() > 0 {
        lemma_run_cons(bal, declared, c[0], Seq::empty());
        assert(c =~= seq![c[0]] + Seq::<Action>::empty());
    }
}

/// Swap atomicity: where the taker cannot pay the recorded price, the call
/// fails as a whole and no balance moves, the vault's payout included.
pub proof fn lemma_fulfill_all_or_nothing(program_id: Key, accts: Seq<AccountView>, args: EscrowArgs, bal: Balances, declared: Declared)
    requires
        take_outcome(program_id, accts, args) is Ok,
        accts[5].key@ != accts[4].key@,
        accts[5].key@ != accts[8].key@,
        balance(bal, accts[5].key@) < open_record_of(program_id, accts[7])->Ok_0.receive,
    ensures
        run(bal, declared, take_outcome(program_id, accts, args)->Ok_0) is None,
        commit(bal, declared, take_outcome(program_id, accts, args)->Ok_0) == bal,
{
    let acts = take_outcome(program_id, accts, args)->Ok_0;
    let pre = create_if_vacant(accts[4], accts[0].key, accts[2].key);
    let tail = acts.subrange(pre.len() as int, acts.len() as int);
    assert(acts =~= pre + tail);
    lemma_create_if_vacant_moves_nothing(bal, declared, accts[4], accts[0].key, accts[2].key, tail);
    let leg_a = tail[0];
    let leg_b = tail[1];
    let rest = tail.subrange(2, 4);
    assert(tail =~= seq![leg_a] + (seq![leg_b] + rest));
    lemma_run_cons(bal, declared, leg_a, seq![leg_b] + rest);
    if let Some(b1) = apply(bal, declared, leg_a) {
        assert(balance(b1, accts[5].key@) == balance(bal, accts[5].key@));
        lemma_run_cons(b1, declared, leg_b, rest);
    }
}

/// Runs the four effects of a successful open.
proof fn lemma_run_open(program_id: Key, accts: Seq<AccountView>, args: EscrowArgs, bal: Balances, declared: Declared)
    requires
        make_outcome(program_id, accts, args) is Ok,
        agrees(declared, accts[1]),
        accts[3].key@ != accts[5].key@,
        balance(bal, accts[3].key@) >= args.amount,
    ensures
        run(bal, declared, make_outcome(program_id, accts, args)->Ok_0) matches Some(b) && b == bal.insert(
            accts[3].key@,
            balance(bal, accts[3].key@) - args.amount,
        ).insert(accts[5].key@, balance(bal, accts[5].key@) + args.amount),
{
    let acts = make_outcome(program_id, accts, args)->Ok_0;
    let e = Seq::<Action>::empty();
    assert(acts =~= seq![acts[0]] + (seq![acts[1]] + (seq![acts[2]] + (seq![acts[3]] + e))));
    lemma_run_cons(bal, declared, acts[0], seq![acts[1]] + (seq![acts[2]] + (seq![acts[3]] + e)));
    lemma_run_cons(bal, declared, acts[1], seq![acts[2]] + (seq![acts[3]] + e));
    lemma_run_cons(bal, declared, acts[2], seq![acts[3]] + e);
    lemma_run_cons(bal, declared, acts[3], e);
}

/// Cancel round trip: opening, then cancelling with the same amount, leaves
/// every balance as it was (the maker's holding account gets the deposit back
/// and the vault is empty again), and the cancel closes the record and the
/// vault.
pub proof fn lemma_open_then_cancel(
    program_id: Key,
    open_accts: Seq<AccountView>,
    open_args: EscrowArgs,
    cancel_accts: Seq<AccountView>,
    cancel_args: EscrowArgs,
    bal: Balances, declared: Declared,
)
    requires
        make_outcome(program_id, open_accts, open_args) is Ok,
        refund_outcome(program_id, cancel_accts, cancel_args) is Ok,
        cancel_accts[2].key == open_accts[3].key,
        cancel_accts[3].key == open_accts[4].key,
        cancel_accts[4].key == open_accts[5].key,
        cancel_args.amount == open_args.amount,
        agrees(declared, open_accts[1]),
        agrees(declared, cancel_accts[1]),
        open_accts[3].key@ != open_accts[5].key@,
        balance(bal, open_accts[5].key@) == 0,
        balance(bal, open_accts[3].key@) >= open_args.amount,
    ensures
        ({
            let opened = make_outcome(program_id, open_accts, open_args)->Ok_0;
            let cancelled = refund_outcome(program_id, cancel_accts, cancel_args)->Ok_0;
            &&& run(bal, declared, opened + cancelled) matches Some(b) && forall|k: Seq<u8>|
                balance(b, k) == balance(bal, k)
            &&& cancelled[cancelled.len() - 2] matches Action::CloseRecord { record, .. } && record
                == open_accts[4].key
            &&& cancelled[cancelled.len() - 1] matches Action::CloseVault { vault, .. } && vault
                == open_accts[5].key
        }),
{
    let opened = make_outcome(program_id, open_accts, open_args)->Ok_0;
    let cancelled = refund_outcome(program_id, cancel_accts, cancel_args)->Ok_0;
    lemma_run_open(program_id, open_accts, open_args, bal, declared);
    let b1 = run(bal, declared, opened)->Some_0;
    lemma_run_concat(bal, declared, opened, cancelled);
    let pre = create_if_vacant(cancel_accts[2], cancel_accts[0].key, cancel_accts[1].key);
    let tail = cancelled.subrange(pre.len() as int, cancelled.len() as int);
    assert(cancelled =~= pre + tail);
    lemma_create_if_vacant_moves_nothing(b1, declared, cancel_accts[2], cancel_accts[0].key, cancel_accts[1].key, tail);
    let e = Seq::<Action>::empty();
    assert(tail =~= seq![tail[0]] + (seq![tail[1]] + (seq![tail[2]] + e)));
    lemma_run_cons(b1, declared, tail[0], seq![tail[1]] + (seq![tail[2]] + e));
    let b2 = apply(b1, declared, tail[0])->Some_0;
    lemma_run_cons(b2, declared, tail[1], seq![tail[2]] + e);
    lemma_run_cons(b2, declared, tail[2], e);
    assert forall|k: Seq<u8>| balance(b2, k) == balance(bal, k) by {}
}

/// Fulfill round trip: opening with amount A and price R, then fulfilling
/// the record that the open wrote with the same amount, pays the taker exactly
/// A of asset A, pays the maker exactly R of asset B out of the taker's
/// holding, empties the vault, and closes the record and the vault.
pub proof fn lemma_open_then_fulfill(
    program_id: Key,
    open_accts: Seq<AccountView>,
    open_args: EscrowArgs,
    take_accts: Seq<AccountView>,
    take_args: EscrowArgs,
    bal: Balances, declared: Declared,
)
    requires
        make_outcome(program_id, open_accts, open_args) is Ok,
        take_outcome(program_id, take_accts, take_args) is Ok,
        take_accts[7].key == open_accts[4].key,
        take_accts[8].key == open_accts[5].key,
        take_accts[7].data@ == escrow_bytes(opened_record(open_accts, open_args)),
        take_args.amount == open_args.amount,
        agrees(declared, open_accts[1]),
        agrees(declared, take_accts[2]),
        agrees(declared, take_accts[3]),
        ({
            let ks = seq![open_accts[3].key@, open_accts[5].key@, take_accts[4].key@, take_accts[5].key@, take_accts[6].key@];
            forall|i: int, j: int| 0 <= i < j < 5 ==> ks[i] != ks[j]
        }),
        balance(bal, open_accts[5].key@) == 0,
        balance(bal, open_accts[3].key@) >= open_args.amount,
        balance(bal, take_accts[5].key@) >= open_args.receive,
    ensures
        ({
            let opened = make_outcome(program_id, open_accts, open_args)->Ok_0;
            let taken = take_outcome(program_id, take_accts, take_args)->Ok_0;
            &&& run(bal, declared, opened + taken) matches Some(b) && {
                &&& balance(b, take_accts[4].key@) == balance(bal, take_accts[4].key@) + open_args.amount
                &&& balance(b, take_accts[6].key@) == balance(bal, take_accts[6].key@) + open_args.receive
                &&& balance(b, take_accts[5].key@) == balance(bal, take_accts[5].key@) - open_args.receive
                &&& balance(b, open_accts[3].key@) == balance(bal, open_accts[3].key@) - open_args.amount
                &&& balance(b, open_accts[5].key@) == 0
            }
            &&& taken[taken.len() - 2] matches Action::CloseRecord { record, .. } && record
                == open_accts[4].key
            &&& taken[taken.len() - 1] matches Action::CloseVault { vault, .. } && vault
                == open_accts[5].key
        }),
{
    let ks = seq![open_accts[3].key@, open_accts[5].key@, take_accts[4].key@, take_accts[5].key@, take_accts[6].key@];
    assert(ks[0] != ks[1] && ks[0] != ks[2] && ks[0] != ks[3] && ks[0] != ks[4]);
    assert(ks[1] != ks[2] && ks[1] != ks[3] && ks[1] != ks[4]);
    assert(ks[2] != ks[3] && ks[2] != ks[4] && ks[3] != ks[4]);
    let opened = make_outcome(program_id, open_accts, open_args)->Ok_0;
    let taken = take_outcome(program_id, take_accts, take_args)->Ok_0;
    lemma_escrow_round_trip(opened_record(open_accts, open_args));
    assert(open_record_of(program_id, take_accts[7])->Ok_0 == opened_record(open_accts, open_args));
    lemma_run_open(program_id, open_accts, open_args, bal, declared);
    let b1 = run(bal, declared, opened)->Some_0;
    lemma_run_concat(bal, declared, opened, taken);
    let pre = create_if_vacant(take_accts[4], take_accts[0].key, take_accts[2].key);
    let tail = taken.subrange(pre.len() as int, taken.len() as int);
    assert(taken =~= pre + tail);
    lemma_create_if_vacant_moves_nothing(b1, declared, take_accts[4], take_accts[0].key, take_accts[2].key, tail);
    let e = Seq::<Action>::empty();
    assert(tail =~= seq![tail[0]] + (seq![tail[1]] + (seq![tail[2]] + (seq![tail[3]] + e))));
    lemma_run_cons(b1, declared, tail[0], seq![tail[1]] + (seq![tail[2]] + (seq![tail[3]] + e)));
    let b2 = apply(b1, declared, tail[0])->Some_0;
    lemma_run_cons(b2, declared, tail[1], seq![tail[2]] + (seq![tail[3]] + e));
    let b3 = apply(b2, declared, tail[1])->Some_0;
    lemma_run_cons(b3, declared, tail[2], seq![tail[3]] + e);
    lemma_run_cons(b3, declared, tail[3], e);
}

/// Decimals enforcement: a call with a transfer whose decimals differ from
/// those its mint declares fails as a whole, and no balance changes.
pub proof fn lemma_mismatched_decimals_change_nothing(bal: Balances, declared: Declared, acts: Seq<Action>, i: int)
    requires
        0 <= i < acts.len(),
        acts[i] matches Action::Transfer { mint, decimals, .. } && declared.contains_key(mint@)
            && declared[mint@] != decimals,
    ensures
        run(bal, declared, acts) is None,
        commit(bal, declared, acts) == bal,
    decreases i,
{
    if i > 0 {
        if let Some(next) = apply(bal, declared, acts[0]) {
            assert(acts.drop_first()[i - 1] == acts[i]);
            lemma_mismatched_decimals_change_nothing(next, declared, acts.drop_first(), i - 1);
        }
    }
}

} // verus!
