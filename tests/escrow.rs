use escrow::action::{AccountView, Action, Capability};
use escrow::codec::{keys_equal, read_u64_le, write_u64_le};
use escrow::error::EscrowError;
use escrow::instruction::EscrowInstruction;
use escrow::instructions::{closed_balance, derive_escrow_address, make, refund, take};
use escrow::processor::process_instruction;
use escrow::state::{Escrow, EscrowArgs, ESCROW_LEN};
use solana_program::program_option::COption;
use solana_program::program_pack::Pack;
use solana_program::pubkey::Pubkey;
use spl_token::state::Mint;

const AMOUNT: u64 = 500;
const RECEIVE: u64 = 300;

fn key(b: u8) -> [u8; 32] {
    [b; 32]
}

fn program_id() -> [u8; 32] {
    key(7)
}

fn token_id() -> [u8; 32] {
    spl_token::id().to_bytes()
}

fn factory_id() -> [u8; 32] {
    spl_associated_token_account::id().to_bytes()
}

fn maker_key() -> [u8; 32] {
    key(1)
}

fn taker_key() -> [u8; 32] {
    key(2)
}

fn pda(maker: &[u8; 32]) -> ([u8; 32], u8) {
    let (a, bump) = Pubkey::find_program_address(
        &[b"escrow", maker.as_ref()],
        &Pubkey::new_from_array(program_id()),
    );
    (a.to_bytes(), bump)
}

fn mint_data(decimals: u8) -> Vec<u8> {
    let m = Mint {
        mint_authority: COption::None,
        supply: 1_000_000,
        decimals,
        is_initialized: true,
        freeze_authority: COption::None,
    };
    let mut d = vec![0u8; Mint::LEN];
    Mint::pack(m, &mut d).unwrap();
    d
}

fn acct(k: [u8; 32], owner: [u8; 32], signer: bool, writable: bool, lamports: u64, data: Vec<u8>) -> AccountView {
    AccountView { key: k, owner, is_signer: signer, is_writable: writable, lamports, data }
}

fn args(bump: u8) -> EscrowArgs {
    EscrowArgs { maker: maker_key(), taker: None, amount: AMOUNT, receive: RECEIVE, escrow_bump: bump }
}

fn make_accounts() -> Vec<AccountView> {
    let (escrow, _) = pda(&maker_key());
    vec![
        acct(maker_key(), key(0), true, true, 10_000, vec![]),
        acct(key(10), token_id(), false, false, 1_000, mint_data(6)),
        acct(key(11), token_id(), false, false, 1_000, mint_data(9)),
        acct(key(12), factory_id(), false, true, 1_000, vec![0; 165]),
        acct(escrow, key(0), false, true, 0, vec![]),
        acct(key(14), key(0), false, true, 0, vec![]),
        acct(key(0), key(0), false, false, 1, vec![]),
        acct(token_id(), key(0), false, false, 1, vec![]),
        acct(factory_id(), key(0), false, false, 1, vec![]),
    ]
}

fn stored_record(bump: u8) -> Escrow {
    Escrow { seed: 0, receive: RECEIVE, maker: maker_key(), mint_a: key(10), mint_b: key(11), bump: bump as u64 }
}

fn take_accounts() -> Vec<AccountView> {
    let (escrow, bump) = pda(&maker_key());
    vec![
        acct(taker_key(), key(0), true, true, 10_000, vec![]),
        acct(maker_key(), key(0), false, true, 10_000, vec![]),
        acct(key(10), token_id(), false, false, 1_000, mint_data(6)),
        acct(key(11), token_id(), false, false, 1_000, mint_data(9)),
        acct(key(20), factory_id(), false, true, 1_000, vec![0; 165]),
        acct(key(21), factory_id(), false, true, 1_000, vec![0; 165]),
        acct(key(22), factory_id(), false, true, 1_000, vec![0; 165]),
        acct(escrow, program_id(), false, true, 2_000, stored_record(bump).to_bytes()),
        acct(key(14), token_id(), false, true, 2_000, vec![0; 165]),
        acct(token_id(), key(0), false, false, 1, vec![]),
        acct(factory_id(), key(0), false, false, 1, vec![]),
    ]
}

fn refund_accounts() -> Vec<AccountView> {
    let (escrow, bump) = pda(&maker_key());
    vec![
        acct(maker_key(), key(0), true, true, 10_000, vec![]),
        acct(key(10), token_id(), false, false, 1_000, mint_data(6)),
        acct(key(12), factory_id(), false, true, 1_000, vec![0; 165]),
        acct(escrow, program_id(), false, true, 2_000, stored_record(bump).to_bytes()),
        acct(key(14), token_id(), false, true, 2_000, vec![0; 165]),
        acct(token_id(), key(0), false, false, 1, vec![]),
        acct(factory_id(), key(0), false, false, 1, vec![]),
    ]
}

#[test]
fn u64_little_endian_bytes() {
    let mut out = vec![9u8];
    write_u64_le(&mut out, 0x0102_0304_0506_0708);
    assert_eq!(out, vec![9, 8, 7, 6, 5, 4, 3, 2, 1]);
    assert_eq!(read_u64_le(&out, 1), 0x0102_0304_0506_0708);
    let mut max = vec![];
    write_u64_le(&mut max, u64::MAX);
    assert_eq!(max, vec![255; 8]);
    assert_eq!(read_u64_le(&max, 0), u64::MAX);
}

#[test]
fn keys_compare_by_bytes() {
    let mut k = key(3);
    assert!(keys_equal(&k, &key(3)));
    k[31] = 4;
    assert!(!keys_equal(&k, &key(3)));
}

#[test]
fn record_layout_is_120_bytes() {
    let e = Escrow { seed: 1, receive: 2, maker: key(3), mint_a: key(4), mint_b: key(5), bump: 254 };
    let b = e.to_bytes();
    assert_eq!(b.len(), ESCROW_LEN);
    assert_eq!(Escrow::LEN, 120);
    assert_eq!(&b[0..8], &[1, 0, 0, 0, 0, 0, 0, 0]);
    assert_eq!(&b[8..16], &[2, 0, 0, 0, 0, 0, 0, 0]);
    assert_eq!(&b[16..48], &[3u8; 32]);
    assert_eq!(&b[48..80], &[4u8; 32]);
    assert_eq!(&b[80..112], &[5u8; 32]);
    assert_eq!(&b[112..120], &[254, 0, 0, 0, 0, 0, 0, 0]);
    assert_eq!(Escrow::from_bytes(&b), Some(e));
}

#[test]
fn record_of_wrong_size_is_refused() {
    assert_eq!(Escrow::from_bytes(&[0u8; 119]), None);
    assert_eq!(Escrow::from_bytes(&[0u8; 121]), None);
    assert_eq!(Escrow::from_bytes(&[]), None);
}

#[test]
fn instruction_encoding_without_taker() {
    let ix = EscrowInstruction::Make(EscrowArgs { maker: key(1), taker: None, amount: 5, receive: 6, escrow_bump: 250 });
    let b = ix.to_bytes();
    assert_eq!(b.len(), 51);
    assert_eq!(b[0], 0);
    assert_eq!(&b[1..33], &[1u8; 32]);
    assert_eq!(b[33], 0);
    assert_eq!(&b[34..42], &[5, 0, 0, 0, 0, 0, 0, 0]);
    assert_eq!(&b[42..50], &[6, 0, 0, 0, 0, 0, 0, 0]);
    assert_eq!(b[50], 250);
    assert_eq!(EscrowInstruction::try_from_slice(&b), Ok(ix));
}

#[test]
fn instruction_encoding_with_taker() {
    let ix = EscrowInstruction::Refund(EscrowArgs { maker: key(1), taker: Some(key(2)), amount: 5, receive: 6, escrow_bump: 1 });
    let b = ix.to_bytes();
    assert_eq!(b.len(), 83);
    assert_eq!(b[0], 2);
    assert_eq!(b[33], 1);
    assert_eq!(&b[34..66], &[2u8; 32]);
    assert_eq!(EscrowInstruction::try_from_slice(&b), Ok(ix));
    let t = EscrowInstruction::Take(EscrowArgs { maker: key(1), taker: None, amount: 0, receive: 0, escrow_bump: 0 });
    assert_eq!(EscrowInstruction::try_from_slice(&t.to_bytes()), Ok(t));
}

#[test]
fn malformed_instructions_are_refused() {
    let good = EscrowInstruction::Make(args(1)).to_bytes();
    let mut bad_tag = good.clone();
    bad_tag[0] = 3;
    assert_eq!(EscrowInstruction::try_from_slice(&bad_tag), Err(EscrowError::InvalidInstructionData));
    let mut bad_flag = good.clone();
    bad_flag[33] = 2;
    assert_eq!(EscrowInstruction::try_from_slice(&bad_flag), Err(EscrowError::InvalidInstructionData));
    assert_eq!(EscrowInstruction::try_from_slice(&good[..50]), Err(EscrowError::InvalidInstructionData));
    let mut longer = good.clone();
    longer.push(0);
    assert_eq!(EscrowInstruction::try_from_slice(&longer), Err(EscrowError::InvalidInstructionData));
    assert_eq!(EscrowInstruction::try_from_slice(&[]), Err(EscrowError::InvalidInstructionData));
}

#[test]
fn derivation_matches_the_ledger() {
    let (expected, bump) = pda(&maker_key());
    assert_eq!(derive_escrow_address(&maker_key(), bump, &program_id()), Some(expected));
    assert_eq!(derive_escrow_address(&maker_key(), bump, &program_id()), Some(expected));
    let other = derive_escrow_address(&key(9), bump, &program_id());
    assert_ne!(other, Some(expected));
}

#[test]
fn open_plans_record_vault_and_deposit() {
    let (escrow, bump) = pda(&maker_key());
    let acts = make(&program_id(), &make_accounts(), args(bump)).unwrap();
    let cap = Capability { address: escrow, maker: maker_key(), bump };
    assert_eq!(acts.len(), 4);
    assert_eq!(
        acts[0],
        Action::CreateRecord { payer: maker_key(), record: escrow, space: 120, owner: program_id(), signer: cap }
    );
    assert_eq!(acts[1], Action::WriteRecord { record: escrow, escrow: stored_record(bump) });
    assert_eq!(acts[2], Action::CreateHoldingAccount { payer: maker_key(), wallet: escrow, mint: key(10) });
    assert_eq!(
        acts[3],
        Action::Transfer {
            source: key(12),
            mint: key(10),
            destination: key(14),
            authority: maker_key(),
            amount: AMOUNT,
            decimals: 6,
            signer: None,
        }
    );
}

#[test]
fn open_errors() {
    let (_, bump) = pda(&maker_key());
    let pid = program_id();
    assert_eq!(make(&pid, &make_accounts()[..8], args(bump)), Err(EscrowError::NotEnoughAccountKeys));
    let mut a = make_accounts();
    a[7].key = key(99);
    assert_eq!(make(&pid, &a, args(bump)), Err(EscrowError::IncorrectProgramId));
    let mut a = make_accounts();
    a[6].key = key(98);
    assert_eq!(make(&pid, &a, args(bump)), Err(EscrowError::IncorrectProgramId));
    let mut a = make_accounts();
    a[0].is_signer = false;
    assert_eq!(make(&pid, &a, args(bump)), Err(EscrowError::MissingRequiredSignature));
    let mut a = make_accounts();
    a[0].is_writable = false;
    assert_eq!(make(&pid, &a, args(bump)), Err(EscrowError::AccountNotWritable));
    let mut a = make_accounts();
    a[2].owner = key(0);
    assert_eq!(make(&pid, &a, args(bump)), Err(EscrowError::IllegalOwner));
    let mut a = make_accounts();
    a[3].is_writable = false;
    assert_eq!(make(&pid, &a, args(bump)), Err(EscrowError::AccountNotWritable));
    let mut a = make_accounts();
    a[1].data[45] = 0;
    assert_eq!(make(&pid, &a, args(bump)), Err(EscrowError::InvalidMint));
    let mut a = make_accounts();
    a[2].data.pop();
    assert_eq!(make(&pid, &a, args(bump)), Err(EscrowError::InvalidMint));
    let mut a = make_accounts();
    a[5].lamports = 1;
    assert_eq!(make(&pid, &a, args(bump)), Err(EscrowError::VaultAlreadyExists));
}

#[test]
fn open_with_wrong_bump_is_refused() {
    let (_, bump) = pda(&maker_key());
    let wrong = bump.wrapping_sub(1);
    assert_eq!(make(&program_id(), &make_accounts(), args(wrong)), Err(EscrowError::InvalidSeeds));
    let mut a = make_accounts();
    a[4].key = key(50);
    assert_eq!(make(&program_id(), &a, args(bump)), Err(EscrowError::InvalidSeeds));
}

#[test]
fn second_open_finds_record_in_use() {
    let (_, bump) = pda(&maker_key());
    let mut a = make_accounts();
    assert!(make(&program_id(), &a, args(bump)).is_ok());
    a[4].data = stored_record(bump).to_bytes();
    a[4].owner = program_id();
    a[4].lamports = 2_000;
    assert_eq!(make(&program_id(), &a, args(bump)), Err(EscrowError::AccountAlreadyInUse));
}

#[test]
fn fulfill_plans_both_legs_then_closes() {
    let (escrow, bump) = pda(&maker_key());
    let cap = Capability { address: escrow, maker: maker_key(), bump };
    let acts = take(&program_id(), &take_accounts(), args(bump)).unwrap();
    assert_eq!(
        acts,
        vec![
            Action::Transfer {
                source: key(14),
                mint: key(10),
                destination: key(20),
                authority: escrow,
                amount: AMOUNT,
                decimals: 6,
                signer: Some(cap),
            },
            Action::Transfer {
                source: key(21),
                mint: key(11),
                destination: key(22),
                authority: taker_key(),
                amount: RECEIVE,
                decimals: 9,
                signer: None,
            },
            Action::CloseRecord { record: escrow, recipient: maker_key() },
            Action::CloseVault { vault: key(14), recipient: maker_key(), authority: escrow, signer: cap },
        ]
    );
}

#[test]
fn fulfill_creates_missing_holding_account() {
    let (_, bump) = pda(&maker_key());
    let mut a = take_accounts();
    a[4].data = vec![];
    a[4].lamports = 0;
    a[4].owner = key(0);
    let acts = take(&program_id(), &a, args(bump)).unwrap();
    assert_eq!(acts.len(), 5);
    assert_eq!(acts[0], Action::CreateHoldingAccount { payer: taker_key(), wallet: taker_key(), mint: key(10) });
}

#[test]
fn fulfill_pays_the_recorded_price() {
    let (_, bump) = pda(&maker_key());
    let mut cheap = args(bump);
    cheap.receive = 1;
    let acts = take(&program_id(), &take_accounts(), cheap).unwrap();
    match acts[1] {
        Action::Transfer { amount, .. } => assert_eq!(amount, RECEIVE),
        _ => panic!("second effect is not a transfer"),
    }
}

#[test]
fn fulfill_errors() {
    let (_, bump) = pda(&maker_key());
    let pid = program_id();
    assert_eq!(take(&pid, &take_accounts()[..10], args(bump)), Err(EscrowError::NotEnoughAccountKeys));
    let mut a = take_accounts();
    a[10].key = key(99);
    assert_eq!(take(&pid, &a, args(bump)), Err(EscrowError::IncorrectProgramId));
    let mut a = take_accounts();
    a[0].is_signer = false;
    assert_eq!(take(&pid, &a, args(bump)), Err(EscrowError::MissingRequiredSignature));
    let mut a = take_accounts();
    a[1].is_writable = false;
    assert_eq!(take(&pid, &a, args(bump)), Err(EscrowError::AccountNotWritable));
    let mut a = take_accounts();
    a[6].owner = key(0);
    assert_eq!(take(&pid, &a, args(bump)), Err(EscrowError::IllegalOwner));
    let mut a = take_accounts();
    a[3].data = vec![];
    assert_eq!(take(&pid, &a, args(bump)), Err(EscrowError::InvalidMint));
    let mut a = take_accounts();
    a[7].owner = key(0);
    assert_eq!(take(&pid, &a, args(bump)), Err(EscrowError::IllegalOwner));
    let mut a = take_accounts();
    a[7].data.push(0);
    assert_eq!(take(&pid, &a, args(bump)), Err(EscrowError::InvalidAccountData));
    let mut a = take_accounts();
    a[1].key = key(40);
    assert_eq!(take(&pid, &a, args(bump)), Err(EscrowError::RecordMismatch));
    let mut a = take_accounts();
    a[7].data = stored_record(bump.wrapping_sub(1)).to_bytes();
    assert_eq!(take(&pid, &a, args(bump)), Err(EscrowError::InvalidSeeds));
}

#[test]
fn operations_on_closed_record_fail() {
    let (_, bump) = pda(&maker_key());
    let mut a = take_accounts();
    a[7].data = vec![];
    assert_eq!(take(&program_id(), &a, args(bump)), Err(EscrowError::InvalidAccountData));
    let mut a = take_accounts();
    a[7].data = vec![0; 120];
    a[7].lamports = 0;
    assert_eq!(take(&program_id(), &a, args(bump)), Err(EscrowError::InvalidAccountData));
    let mut r = refund_accounts();
    r[3].data = vec![0; 120];
    r[3].lamports = 0;
    assert_eq!(refund(&program_id(), &r, args(bump)), Err(EscrowError::InvalidAccountData));
    let mut r = refund_accounts();
    r[3].data = vec![];
    assert_eq!(refund(&program_id(), &r, args(bump)), Err(EscrowError::InvalidAccountData));
}

#[test]
fn cancel_plans_refund_then_closes() {
    let (escrow, bump) = pda(&maker_key());
    let cap = Capability { address: escrow, maker: maker_key(), bump };
    let acts = refund(&program_id(), &refund_accounts(), args(bump)).unwrap();
    assert_eq!(
        acts,
        vec![
            Action::Transfer {
                source: key(14),
                mint: key(10),
                destination: key(12),
                authority: escrow,
                amount: AMOUNT,
                decimals: 6,
                signer: Some(cap),
            },
            Action::CloseRecord { record: escrow, recipient: maker_key() },
            Action::CloseVault { vault: key(14), recipient: maker_key(), authority: escrow, signer: cap },
        ]
    );
    let mut r = refund_accounts();
    r[2].data = vec![];
    r[2].lamports = 0;
    let acts = refund(&program_id(), &r, args(bump)).unwrap();
    assert_eq!(acts[0], Action::CreateHoldingAccount { payer: maker_key(), wallet: maker_key(), mint: key(10) });
}

#[test]
fn cancel_by_another_signer_is_refused() {
    let (_, bump) = pda(&maker_key());
    let mut r = refund_accounts();
    r[0].key = key(41);
    assert_eq!(refund(&program_id(), &r, args(bump)), Err(EscrowError::RecordMismatch));
    let mut r = refund_accounts();
    r[0].is_signer = false;
    assert_eq!(refund(&program_id(), &r, args(bump)), Err(EscrowError::MissingRequiredSignature));
    let mut r = refund_accounts();
    r[1].key = key(42);
    r[1].owner = token_id();
    assert_eq!(refund(&program_id(), &r, args(bump)), Err(EscrowError::RecordMismatch));
}

#[test]
fn transfers_carry_each_mint_decimals() {
    let (_, bump) = pda(&maker_key());
    let acts = take(&program_id(), &take_accounts(), args(bump)).unwrap();
    let decimals: Vec<u8> = acts
        .iter()
        .filter_map(|a| match a {
            Action::Transfer { decimals, .. } => Some(*decimals),
            _ => None,
        })
        .collect();
    assert_eq!(decimals, vec![6, 9]);
}

#[test]
fn dispatch_by_selector() {
    let (_, bump) = pda(&maker_key());
    let pid = program_id();
    let data = EscrowInstruction::Make(args(bump)).to_bytes();
    assert_eq!(process_instruction(&pid, &make_accounts(), &data), make(&pid, &make_accounts(), args(bump)));
    let data = EscrowInstruction::Take(args(bump)).to_bytes();
    assert_eq!(process_instruction(&pid, &take_accounts(), &data), take(&pid, &take_accounts(), args(bump)));
    let data = EscrowInstruction::Refund(args(bump)).to_bytes();
    assert_eq!(process_instruction(&pid, &refund_accounts(), &data), refund(&pid, &refund_accounts(), args(bump)));
    assert_eq!(process_instruction(&pid, &make_accounts(), &[7]), Err(EscrowError::InvalidInstructionData));
}

#[test]
fn closing_balance_adds_or_overflows() {
    assert_eq!(closed_balance(10, 32), Ok(42));
    assert_eq!(closed_balance(u64::MAX, 0), Ok(u64::MAX));
    assert_eq!(closed_balance(u64::MAX, 1), Err(EscrowError::ArithmeticOverflow));
}

/// Performs the token movements of `acts` on `bal` the way the host would:
/// all of them, or none where one fails.
fn perform(bal: &mut std::collections::HashMap<[u8; 32], u64>, declared: &[([u8; 32], u8)], acts: &[Action]) -> bool {
    let mut next = bal.clone();
    for act in acts {
        match *act {
            Action::Transfer { source, mint, destination, amount, decimals, .. } => {
                if declared.iter().any(|(m, d)| *m == mint && *d != decimals) {
                    return false;
                }
                let have = *next.get(&source).unwrap_or(&0);
                if have < amount {
                    return false;
                }
                next.insert(source, have - amount);
                let to = *next.get(&destination).unwrap_or(&0);
                next.insert(destination, to + amount);
            }
            Action::CloseVault { vault, .. } => {
                if *next.get(&vault).unwrap_or(&0) != 0 {
                    return false;
                }
            }
            _ => {}
        }
    }
    *bal = next;
    true
}

fn declared() -> Vec<([u8; 32], u8)> {
    vec![(key(10), 6), (key(11), 9)]
}

fn start_balances() -> std::collections::HashMap<[u8; 32], u64> {
    let mut bal = std::collections::HashMap::new();
    bal.insert(key(12), 1_000);
    bal.insert(key(21), 800);
    bal
}

#[test]
fn open_then_fulfill_moves_both_assets() {
    let (_, bump) = pda(&maker_key());
    let mut bal = start_balances();
    let opened = make(&program_id(), &make_accounts(), args(bump)).unwrap();
    assert!(perform(&mut bal, &declared(), &opened));
    assert_eq!(bal[&key(14)], AMOUNT);
    let taken = take(&program_id(), &take_accounts(), args(bump)).unwrap();
    assert!(perform(&mut bal, &declared(), &taken));
    assert_eq!(bal[&key(14)], 0);
    assert_eq!(bal[&key(20)], AMOUNT);
    assert_eq!(bal[&key(22)], RECEIVE);
    assert_eq!(bal[&key(21)], 800 - RECEIVE);
    assert_eq!(bal[&key(12)], 1_000 - AMOUNT);
}

#[test]
fn open_then_cancel_restores_every_balance() {
    let (_, bump) = pda(&maker_key());
    let mut bal = start_balances();
    let before = bal.clone();
    let opened = make(&program_id(), &make_accounts(), args(bump)).unwrap();
    assert!(perform(&mut bal, &declared(), &opened));
    let cancelled = refund(&program_id(), &refund_accounts(), args(bump)).unwrap();
    assert!(perform(&mut bal, &declared(), &cancelled));
    for (k, v) in before.iter() {
        assert_eq!(bal[k], *v);
    }
    assert_eq!(bal[&key(14)], 0);
}

#[test]
fn fulfill_without_funds_moves_nothing() {
    let (_, bump) = pda(&maker_key());
    let mut bal = start_balances();
    let opened = make(&program_id(), &make_accounts(), args(bump)).unwrap();
    assert!(perform(&mut bal, &declared(), &opened));
    bal.insert(key(21), RECEIVE - 1);
    let before = bal.clone();
    let taken = take(&program_id(), &take_accounts(), args(bump)).unwrap();
    assert!(!perform(&mut bal, &declared(), &taken));
    assert_eq!(bal, before);
}

#[test]
fn transfer_with_wrong_decimals_moves_nothing() {
    let mut bal = start_balances();
    let before = bal.clone();
    let wrong = Action::Transfer {
        source: key(12),
        mint: key(10),
        destination: key(14),
        authority: maker_key(),
        amount: 1,
        decimals: 9,
        signer: None,
    };
    assert!(!perform(&mut bal, &declared(), &[wrong]));
    assert_eq!(bal, before);
    let (_, bump) = pda(&maker_key());
    let opened = make(&program_id(), &make_accounts(), args(bump)).unwrap();
    assert!(perform(&mut bal, &declared(), &opened));
}
