//! The three handlers: each validates every supplied account, then returns the
//! effects to perform. Nothing is performed where a check fails.
use vstd::prelude::*;

use crate::action::{AccountView, Action, Capability};
use crate::codec::keys_equal;
use crate::error::EscrowError;
use crate::ledger::{
    create_program_address, is_holding_factory, is_holding_factory_id, is_system_program,
    is_system_program_id, is_token_program, is_token_program_id, mint_decimals, mint_decimals_of,
    program_address,
};
use crate::state::{parse_escrow, Escrow, EscrowArgs, Key, ESCROW_LEN};

verus! {

/// The fixed tag that starts every record's seeds: the bytes of "escrow".
pub open spec fn escrow_tag() -> Seq<u8> {
    seq![101u8, 115u8, 99u8, 114u8, 111u8, 119u8]
}

/// The seeds of the record of `maker` with bump `bump`.
pub open spec fn escrow_seeds(maker: Seq<u8>, bump: u8) -> Seq<Seq<u8>> {
    seq![escrow_tag(), maker, seq![bump]]
}

/// The record address derived for `maker` and `bump` under `program`.
pub open spec fn escrow_address(maker: Seq<u8>, bump: u8, program: Seq<u8>) -> Option<Seq<u8>> {
    program_address(escrow_seeds(maker, bump), program)
}

/// Whether an account holds nothing at all: no data and no balance.
pub open spec fn is_vacant(a: AccountView) -> bool {
    a.data@.len() == 0 && a.lamports == 0
}

/// Derives the record address of `maker` and `bump` under `program_id`.
pub fn derive_escrow_address(maker: &Key, bump: u8, program_id: &Key) -> (r: Option<Key>)
    ensures
        match r {
            Some(a) => escrow_address(maker@, bump, program_id@) == Some(a@),
            None => escrow_address(maker@, bump, program_id@) is None,
        },
{
    let tag: [u8; 6] = [101u8, 115u8, 99u8, 114u8, 111u8, 119u8];
    assert(tag@ =~= escrow_tag());
    create_program_address(tag.as_slice(), maker, bump, program_id)
}

/// Whether the address derived for `maker` and `bump` is `expected`.
pub fn escrow_address_matches(maker: &Key, bump: u8, program_id: &Key, expected: &Key) -> (r: bool)
    ensures
        r == (escrow_address(maker@, bump, program_id@) == Some(expected@)),
{
    match derive_escrow_address(maker, bump, program_id) {
        Some(a) => keys_equal(&a, expected),
        None => false,
    }
}

/// The record that opening stores: nonce zero, the requested amount, the
/// maker, both assets and the bump.
pub open spec fn opened_record(accts: Seq<AccountView>, args: EscrowArgs) -> Escrow {
    Escrow {
        seed: 0,
        receive: args.receive,
        maker: accts[0].key,
        mint_a: accts[1].key,
        mint_b: accts[2].key,
        bump: args.escrow_bump as u64,
    }
}

/// What opening an escrow yields: the checks in order, the first failing one
/// giving the error, then the effects.
///
/// Accounts: maker, mint A, mint B, maker's holding account for A, record,
/// vault, system program, token program, holding-account factory.
pub open spec fn make_outcome(program_id: Key, accts: Seq<AccountView>, args: EscrowArgs) -> Result<
    Seq<Action>,
    EscrowError,
> {
    if accts.len() < 9 {
        Err(EscrowError::NotEnoughAccountKeys)
    } else {
        let maker = accts[0];
        let mint_a = accts[1];
        let mint_b = accts[2];
        let maker_ata_a = accts[3];
        let escrow = accts[4];
        let vault = accts[5];
        let token = accts[7];
        let factory = accts[8];
        if !is_system_program_id(accts[6].key@) || !is_token_program_id(token.key@)
            || !is_holding_factory_id(factory.key@) {
            Err(EscrowError::IncorrectProgramId)
        } else if !maker.is_signer {
            Err(EscrowError::MissingRequiredSignature)
        } else if !maker.is_writable {
            Err(EscrowError::AccountNotWritable)
        } else if mint_a.owner@ != token.key@ || mint_b.owner@ != token.key@ || maker_ata_a.owner@
            != factory.key@ {
            Err(EscrowError::IllegalOwner)
        } else if !maker_ata_a.is_writable {
            Err(EscrowError::AccountNotWritable)
        } else if mint_decimals_of(mint_a.data@) is None || mint_decimals_of(mint_b.data@) is None {
            Err(EscrowError::InvalidMint)
        } else if !escrow.is_writable {
            Err(EscrowError::AccountNotWritable)
        } else if escrow.data@.len() != 0 {
            Err(EscrowError::AccountAlreadyInUse)
        } else if escrow_address(maker.key@, args.escrow_bump, program_id@) != Some(escrow.key@) {
            Err(EscrowError::InvalidSeeds)
        } else if !is_vacant(vault) {
            Err(EscrowError::VaultAlreadyExists)
        } else {
            let cap = Capability { address: escrow.key, maker: maker.key, bump: args.escrow_bump };
            Ok(
                seq![
                    Action::CreateRecord {
                        payer: maker.key,
                        record: escrow.key,
                        space: ESCROW_LEN as u64,
                        owner: program_id,
                        signer: cap,
                    },
                    Action::WriteRecord { record: escrow.key, escrow: opened_record(accts, args) },
                    Action::CreateHoldingAccount { payer: maker.key, wallet: escrow.key, mint: mint_a.key },
                    Action::Transfer {
                        source: maker_ata_a.key,
                        mint: mint_a.key,
                        destination: vault.key,
                        authority: maker.key,
                        amount: args.amount,
                        decimals: mint_decimals_of(mint_a.data@)->Some_0,
                        signer: None,
                    },
                ],
            )
        }
    }
}

/// Opens an escrow: checks every account, then returns the effects that
/// allocate and fill the record, create the vault and deposit `amount` of
/// asset A into it.
pub fn make(program_id: &Key, accounts: &[AccountView], args: EscrowArgs) -> (r: Result<
    Vec<Action>,
    EscrowError,
>)
    ensures
        match r {
            Ok(acts) => make_outcome(*program_id, accounts@, args) == Result::<Seq<Action>, EscrowError>::Ok(acts@),
            Err(e) => make_outcome(*program_id, accounts@, args) == Result::<Seq<Action>, EscrowError>::Err(e),
        },
{
    if accounts.len() < 9 {
        return Err(EscrowError::NotEnoughAccountKeys);
    }
    let maker = &accounts[0];
    let mint_a = &accounts[1];
    let mint_b = &accounts[2];
    let maker_ata_a = &accounts[3];
    let escrow = &accounts[4];
    let vault = &accounts[5];
    let token = &accounts[7];
    let factory = &accounts[8];
    if !is_system_program(&accounts[6].key) || !is_token_program(&token.key) || !is_holding_factory(
        &factory.key,
    ) {
        return Err(EscrowError::IncorrectProgramId);
    }
    if !maker.is_signer {
        return Err(EscrowError::MissingRequiredSignature);
    }
    if !maker.is_writable {
        return Err(EscrowError::AccountNotWritable);
    }
    if !keys_equal(&mint_a.owner, &token.key) || !keys_equal(&mint_b.owner, &token.key)
        || !keys_equal(&maker_ata_a.owner, &factory.key) {
        return Err(EscrowError::IllegalOwner);
    }
    if !maker_ata_a.is_writable {
        return Err(EscrowError::AccountNotWritable);
    }
    let decimals_a = match mint_decimals(mint_a.data.as_slice()) {
        Some(d) => d,
        None => return Err(EscrowError::InvalidMint),
    };
    if mint_decimals(mint_b.data.as_slice()).is_none() {
        return Err(EscrowError::InvalidMint);
    }
    if !escrow.is_writable {
        return Err(EscrowError::AccountNotWritable);
    }
    if escrow.data.len() != 0 {
        return Err(EscrowError::AccountAlreadyInUse);
    }
    if !escrow_address_matches(&maker.key, args.escrow_bump, program_id, &escrow.key) {
        return Err(EscrowError::InvalidSeeds);
    }
    if vault.data.len() != 0 || vault.lamports != 0 {
        return Err(EscrowError::VaultAlreadyExists);
    }
    let cap = Capability { address: escrow.key, maker: maker.key, bump: args.escrow_bump };
    let record = Escrow {
        seed: 0,
        receive: args.receive,
        maker: maker.key,
        mint_a: mint_a.key,
        mint_b: mint_b.key,
        bump: args.escrow_bump as u64,
    };
    let mut acts: Vec<Action> = Vec::new();
    acts.push(
        Action::CreateRecord {
            payer: maker.key,
            record: escrow.key,
            space: ESCROW_LEN as u64,
            owner: *program_id,
            signer: cap,
        },
    );
    acts.push(Action::WriteRecord { record: escrow.key, escrow: record });
    acts.push(Action::CreateHoldingAccount { payer: maker.key, wallet: escrow.key, mint: mint_a.key });
    acts.push(
        Action::Transfer {
            source: maker_ata_a.key,
            mint: mint_a.key,
            destination: vault.key,
            authority: maker.key,
            amount: args.amount,
            decimals: decimals_a,
            signer: None,
        },
    );
    assert(acts@ =~= make_outcome(*program_id, accounts@, args)->Ok_0);
    Ok(acts)
}


/// The record held by an account of this program that holds an open escrow: a
/// funded account of the record's size.
pub open spec fn open_record_of(program_id: Key, escrow: AccountView) -> Result<Escrow, EscrowError> {
    if escrow.owner@ != program_id@ {
        Err(EscrowError::IllegalOwner)
    } else if escrow.lamports == 0 || parse_escrow(escrow.data@) is None {
        Err(EscrowError::InvalidAccountData)
    } else {
        Ok(parse_escrow(escrow.data@)->Some_0)
    }
}

/// Whether the record's stored bump derives `address` for `maker`.
pub open spec fn record_address_ok(rec: Escrow, maker: Seq<u8>, program_id: Key, address: Seq<u8>) -> bool {
    rec.bump <= 255 && escrow_address(maker, rec.bump as u8, program_id@) == Some(address)
}

/// Reads the open escrow that `escrow` holds.
pub fn open_record(program_id: &Key, escrow: &AccountView) -> (r: Result<Escrow, EscrowError>)
    ensures
        r == open_record_of(*program_id, *escrow),
{
    if !keys_equal(&escrow.owner, program_id) {
        return Err(EscrowError::IllegalOwner);
    }
    if escrow.lamports == 0 {
        return Err(EscrowError::InvalidAccountData);
    }
    match Escrow::from_bytes(escrow.data.as_slice()) {
        Some(rec) => Ok(rec),
        None => Err(EscrowError::InvalidAccountData),
    }
}

/// Checks that the record's stored bump derives `address` for `maker`, and
/// returns the capability to sign as that address.
pub fn record_capability(rec: &Escrow, maker: &Key, program_id: &Key, address: &Key) -> (r: Option<
    Capability,
>)
    ensures
        match r {
            Some(c) => record_address_ok(*rec, maker@, *program_id, address@) && c == (Capability {
                address: *address,
                maker: *maker,
                bump: rec.bump as u8,
            }),
            None => !record_address_ok(*rec, maker@, *program_id, address@),
        },
{
    if rec.bump > 255 {
        return None;
    }
    let bump = rec.bump as u8;
    if escrow_address_matches(maker, bump, program_id, address) {
        Some(Capability { address: *address, maker: *maker, bump })
    } else {
        None
    }
}

/// The holding-account creation that precedes a payout into `ata` when it does
/// not exist yet.
pub open spec fn create_if_vacant(ata: AccountView, owner: Key, mint: Key) -> Seq<Action> {
    if is_vacant(ata) {
        seq![Action::CreateHoldingAccount { payer: owner, wallet: owner, mint }]
    } else {
        Seq::<Action>::empty()
    }
}

/// What fulfilling an escrow yields: the checks in order, the first failing
/// one giving the error, then the two legs of the swap and the closing.
///
/// Accounts: taker, maker, mint A, mint B, taker's holding accounts for A and
/// for B, maker's holding account for B, record, vault, token program,
/// holding-account factory.
pub open spec fn take_outcome(program_id: Key, accts: Seq<AccountView>, args: EscrowArgs) -> Result<
    Seq<Action>,
    EscrowError,
> {
    if accts.len() < 11 {
        Err(EscrowError::NotEnoughAccountKeys)
    } else {
        let taker = accts[0];
        let maker = accts[1];
        let mint_a = accts[2];
        let mint_b = accts[3];
        let taker_ata_a = accts[4];
        let taker_ata_b = accts[5];
        let maker_ata_b = accts[6];
        let escrow = accts[7];
        let vault = accts[8];
        let token = accts[9];
        let factory = accts[10];
        if !is_token_program_id(token.key@) || !is_holding_factory_id(factory.key@) {
            Err(EscrowError::IncorrectProgramId)
        } else if !taker.is_signer {
            Err(EscrowError::MissingRequiredSignature)
        } else if !taker.is_writable || !maker.is_writable {
            Err(EscrowError::AccountNotWritable)
        } else if mint_a.owner@ != token.key@ || mint_b.owner@ != token.key@ || (!is_vacant(
            taker_ata_a,
        ) && taker_ata_a.owner@ != factory.key@) || maker_ata_b.owner@ != factory.key@ {
            Err(EscrowError::IllegalOwner)
        } else if !taker_ata_a.is_writable || !maker_ata_b.is_writable {
            Err(EscrowError::AccountNotWritable)
        } else if mint_decimals_of(mint_a.data@) is None || mint_decimals_of(mint_b.data@) is None {
            Err(EscrowError::InvalidMint)
        } else if open_record_of(program_id, escrow) is Err {
            Err(open_record_of(program_id, escrow)->Err_0)
        } else {
            let rec = open_record_of(program_id, escrow)->Ok_0;
            if rec.mint_a@ != mint_a.key@ || rec.mint_b@ != mint_b.key@ || rec.maker@ != maker.key@ {
                Err(EscrowError::RecordMismatch)
            } else if !record_address_ok(rec, maker.key@, program_id, escrow.key@) {
                Err(EscrowError::InvalidSeeds)
            } else {
                let cap = Capability { address: escrow.key, maker: maker.key, bump: rec.bump as u8 };
                Ok(
                    create_if_vacant(taker_ata_a, taker.key, mint_a.key) + seq![
                        Action::Transfer {
                            source: vault.key,
                            mint: mint_a.key,
                            destination: taker_ata_a.key,
                            authority: escrow.key,
                            amount: args.amount,
                            decimals: mint_decimals_of(mint_a.data@)->Some_0,
                            signer: Some(cap),
                        },
                        Action::Transfer {
                            source: taker_ata_b.key,
                            mint: mint_b.key,
                            destination: maker_ata_b.key,
                            authority: taker.key,
                            amount: rec.receive,
                            decimals: mint_decimals_of(mint_b.data@)->Some_0,
                            signer: None,
                        },
                        Action::CloseRecord { record: escrow.key, recipient: maker.key },
                        Action::CloseVault {
                            vault: vault.key,
                            recipient: maker.key,
                            authority: escrow.key,
                            signer: cap,
                        },
                    ],
                )
            }
        }
    }
}

/// Fulfills an escrow: checks every account and the record, then returns the
/// effects that pay the taker `amount` of asset A from the vault, pay the maker
/// the record's requested amount of asset B from the taker, and close the
/// record and the vault to the maker.
pub fn take(program_id: &Key, accounts: &[AccountView], args: EscrowArgs) -> (r: Result<
    Vec<Action>,
    EscrowError,
>)
    ensures
        match r {
            Ok(acts) => take_outcome(*program_id, accounts@, args) == Result::<
                Seq<Action>,
                EscrowError,
            >::Ok(acts@),
            Err(e) => take_outcome(*program_id, accounts@, args) == Result::<
                Seq<Action>,
                EscrowError,
            >::Err(e),
        },
{
    if accounts.len() < 11 {
        return Err(EscrowError::NotEnoughAccountKeys);
    }
    let taker = &accounts[0];
    let maker = &accounts[1];
    let mint_a = &accounts[2];
    let mint_b = &accounts[3];
    let taker_ata_a = &accounts[4];
    let taker_ata_b = &accounts[5];
    let maker_ata_b = &accounts[6];
    let escrow = &accounts[7];
    let vault = &accounts[8];
    let token = &accounts[9];
    let factory = &accounts[10];
    if !is_token_program(&token.key) || !is_holding_factory(&factory.key) {
        return Err(EscrowError::IncorrectProgramId);
    }
    if !taker.is_signer {
        return Err(EscrowError::MissingRequiredSignature);
    }
    if !taker.is_writable || !maker.is_writable {
        return Err(EscrowError::AccountNotWritable);
    }
    let taker_ata_a_vacant = taker_ata_a.data.len() == 0 && taker_ata_a.lamports == 0;
    if !keys_equal(&mint_a.owner, &token.key) || !keys_equal(&mint_b.owner, &token.key) || (
    !taker_ata_a_vacant && !keys_equal(&taker_ata_a.owner, &factory.key)) || !keys_equal(
        &maker_ata_b.owner,
        &factory.key,
    ) {
        return Err(EscrowError::IllegalOwner);
    }
    if !taker_ata_a.is_writable || !maker_ata_b.is_writable {
        return Err(EscrowError::AccountNotWritable);
    }
    let decimals_a = match mint_decimals(mint_a.data.as_slice()) {
        Some(d) => d,
        None => return Err(EscrowError::InvalidMint),
    };
    let decimals_b = match mint_decimals(mint_b.data.as_slice()) {
        Some(d) => d,
        None => return Err(EscrowError::InvalidMint),
    };
    let rec = match open_record(program_id, escrow) {
        Ok(rec) => rec,
        Err(e) => return Err(e),
    };
    if !keys_equal(&rec.mint_a, &mint_a.key) || !keys_equal(&rec.mint_b, &mint_b.key) || !keys_equal(
        &rec.maker,
        &maker.key,
    ) {
        return Err(EscrowError::RecordMismatch);
    }
    let cap = match record_capability(&rec, &maker.key, program_id, &escrow.key) {
        Some(c) => c,
        None => return Err(EscrowError::InvalidSeeds),
    };
    let mut acts: Vec<Action> = Vec::new();
    if taker_ata_a_vacant {
        acts.push(Action::CreateHoldingAccount { payer: taker.key, wallet: taker.key, mint: mint_a.key });
    }
    acts.push(
        Action::Transfer {
            source: vault.key,
            mint: mint_a.key,
            destination: taker_ata_a.key,
            authority: escrow.key,
            amount: args.amount,
            decimals: decimals_a,
            signer: Some(cap),
        },
    );
    acts.push(
        Action::Transfer {
            source: taker_ata_b.key,
            mint: mint_b.key,
            destination: maker_ata_b.key,
            authority: taker.key,
            amount: rec.receive,
            decimals: decimals_b,
            signer: None,
        },
    );
    acts.push(Action::CloseRecord { record: escrow.key, recipient: maker.key });
    acts.push(
        Action::CloseVault { vault: vault.key, recipient: maker.key, authority: escrow.key, signer: cap },
    );
    assert(acts@ =~= take_outcome(*program_id, accounts@, args)->Ok_0);
    Ok(acts)
}

/// What cancelling an escrow yields: the checks in order, the first failing
/// one giving the error, then the refund and the closing.
///
/// Accounts: maker, mint A, maker's holding account for A, record, vault,
/// token program, holding-account factory.
pub open spec fn refund_outcome(program_id: Key, accts: Seq<AccountView>, args: EscrowArgs) -> Result<
    Seq<Action>,
    EscrowError,
> {
    if accts.len() < 7 {
        Err(EscrowError::NotEnoughAccountKeys)
    } else {
        let maker = accts[0];
        let mint_a = accts[1];
        let maker_ata_a = accts[2];
        let escrow = accts[3];
        let vault = accts[4];
        let token = accts[5];
        let factory = accts[6];
        if !is_token_program_id(token.key@) || !is_holding_factory_id(factory.key@) {
            Err(EscrowError::IncorrectProgramId)
        } else if !maker.is_signer {
            Err(EscrowError::MissingRequiredSignature)
        } else if !maker.is_writable || !maker_ata_a.is_writable {
            Err(EscrowError::AccountNotWritable)
        } else if mint_a.owner@ != token.key@ {
            Err(EscrowError::IllegalOwner)
        } else if mint_decimals_of(mint_a.data@) is None {
            Err(EscrowError::InvalidMint)
        } else if open_record_of(program_id, escrow) is Err {
            Err(open_record_of(program_id, escrow)->Err_0)
        } else {
            let rec = open_record_of(program_id, escrow)->Ok_0;
            if rec.mint_a@ != mint_a.key@ || rec.maker@ != maker.key@ {
                Err(EscrowError::RecordMismatch)
            } else if !record_address_ok(rec, maker.key@, program_id, escrow.key@) {
                Err(EscrowError::InvalidSeeds)
            } else {
                let cap = Capability { address: escrow.key, maker: maker.key, bump: rec.bump as u8 };
                Ok(
                    create_if_vacant(maker_ata_a, maker.key, mint_a.key) + seq![
                        Action::Transfer {
                            source: vault.key,
                            mint: mint_a.key,
                            destination: maker_ata_a.key,
                            authority: escrow.key,
                            amount: args.amount,
                            decimals: mint_decimals_of(mint_a.data@)->Some_0,
                            signer: Some(cap),
                        },
                        Action::CloseRecord { record: escrow.key, recipient: maker.key },
                        Action::CloseVault {
                            vault: vault.key,
                            recipient: maker.key,
                            authority: escrow.key,
                            signer: cap,
                        },
                    ],
                )
            }
        }
    }
}

/// Cancels an escrow: checks the maker, the asset and the record, then returns
/// the effects that move `amount` of asset A from the vault back to the maker
/// and close the record and the vault to the maker.
pub fn refund(program_id: &Key, accounts: &[AccountView], args: EscrowArgs) -> (r: Result<
    Vec<Action>,
    EscrowError,
>)
    ensures
        match r {
            Ok(acts) => refund_outcome(*program_id, accounts@, args) == Result::<
                Seq<Action>,
                EscrowError,
            >::Ok(acts@),
            Err(e) => refund_outcome(*program_id, accounts@, args) == Result::<
                Seq<Action>,
                EscrowError,
            >::Err(e),
        },
{
    if accounts.len() < 7 {
        return Err(EscrowError::NotEnoughAccountKeys);
    }
    let maker = &accounts[0];
    let mint_a = &accounts[1];
    let maker_ata_a = &accounts[2];
    let escrow = &accounts[3];
    let vault = &accounts[4];
    let token = &accounts[5];
    let factory = &accounts[6];
    if !is_token_program(&token.key) || !is_holding_factory(&factory.key) {
        return Err(EscrowError::IncorrectProgramId);
    }
    if !maker.is_signer {
        return Err(EscrowError::MissingRequiredSignature);
    }
    if !maker.is_writable || !maker_ata_a.is_writable {
        return Err(EscrowError::AccountNotWritable);
    }
    if !keys_equal(&mint_a.owner, &token.key) {
        return Err(EscrowError::IllegalOwner);
    }
    let decimals_a = match mint_decimals(mint_a.data.as_slice()) {
        Some(d) => d,
        None => return Err(EscrowError::InvalidMint),
    };
    let rec = match open_record(program_id, escrow) {
        Ok(rec) => rec,
        Err(e) => return Err(e),
    };
    if !keys_equal(&rec.mint_a, &mint_a.key) || !keys_equal(&rec.maker, &maker.key) {
        return Err(EscrowError::RecordMismatch);
    }
    let cap = match record_capability(&rec, &maker.key, program_id, &escrow.key) {
        Some(c) => c,
        None => return Err(EscrowError::InvalidSeeds),
    };
    let mut acts: Vec<Action> = Vec::new();
    if maker_ata_a.data.len() == 0 && maker_ata_a.lamports == 0 {
        acts.push(Action::CreateHoldingAccount { payer: maker.key, wallet: maker.key, mint: mint_a.key });
    }
    acts.push(
        Action::Transfer {
            source: vault.key,
            mint: mint_a.key,
            destination: maker_ata_a.key,
            authority: escrow.key,
            amount: args.amount,
            decimals: decimals_a,
            signer: Some(cap),
        },
    );
    acts.push(Action::CloseRecord { record: escrow.key, recipient: maker.key });
    acts.push(
        Action::CloseVault { vault: vault.key, recipient: maker.key, authority: escrow.key, signer: cap },
    );
    assert(acts@ =~= refund_outcome(*program_id, accounts@, args)->Ok_0);
    Ok(acts)
}

/// The recipient's balance after it receives a closed record's balance.
pub fn closed_balance(recipient: u64, record: u64) -> (r: Result<u64, EscrowError>)
    ensures
        recipient + record <= u64::MAX ==> r == Ok::<u64, EscrowError>((recipient + record) as u64),
        recipient + record > u64::MAX ==> r == Err::<u64, EscrowError>(EscrowError::ArithmeticOverflow),
{
    match recipient.checked_add(record) {
        Some(v) => Ok(v),
        None => Err(EscrowError::ArithmeticOverflow),
    }
}

} // verus!
