use blueshift_escrow::account::AccountView;
use blueshift_escrow::cpi::Action;
use blueshift_escrow::error::ProgramError;
use blueshift_escrow::ids::{ASSOCIATED_TOKEN_PROGRAM_ID, ID, SYSTEM_PROGRAM_ID, TOKEN_PROGRAM_ID};
use blueshift_escrow::instructions::make::{Make, MakeAccounts, MakeInstructionData};
use blueshift_escrow::instructions::refund::Refund;
use blueshift_escrow::instructions::take::Take;
use blueshift_escrow::processor::{parse_instruction, EscrowInstruction};
use blueshift_escrow::state::Escrow;

const MAKER: [u8; 32] = [11; 32];
const TAKER: [u8; 32] = [21; 32];
const MINT_A: [u8; 32] = [12; 32];
const MINT_B: [u8; 32] = [13; 32];
const SEED: u64 = 42;
const RECEIVE: u64 = 777;
const AMOUNT: u64 = 1_000;

fn account(address: [u8; 32], owner: [u8; 32], is_signer: bool, data: Vec<u8>) -> AccountView {
    AccountView { address, owner, is_signer, is_writable: true, lamports: 1_000_000, data }
}

fn pda(seeds: &[&[u8]; 3], program: [u8; 32]) -> ([u8; 32], u8) {
    let (a, b) = solana_address::Address::derive_program_address(
        seeds,
        &solana_address::Address::new_from_array(program),
    )
    .unwrap();
    (a.to_bytes(), b)
}

fn ata(wallet: [u8; 32], mint: [u8; 32]) -> [u8; 32] {
    pda(&[&wallet, &TOKEN_PROGRAM_ID, &mint], ASSOCIATED_TOKEN_PROGRAM_ID).0
}

fn escrow_pda() -> ([u8; 32], u8) {
    pda(&[b"escrow", &MAKER, &SEED.to_le_bytes()], ID)
}

fn make_data(seed: u64, receive: u64, amount: u64) -> Vec<u8> {
    let mut d = Vec::new();
    d.extend_from_slice(&seed.to_le_bytes());
    d.extend_from_slice(&receive.to_le_bytes());
    d.extend_from_slice(&amount.to_le_bytes());
    d
}

fn make_accounts() -> Vec<AccountView> {
    let escrow = escrow_pda().0;
    vec![
        account(MAKER, SYSTEM_PROGRAM_ID, true, vec![]),
        account(escrow, SYSTEM_PROGRAM_ID, false, vec![]),
        account(MINT_A, TOKEN_PROGRAM_ID, false, vec![0; 82]),
        account(MINT_B, TOKEN_PROGRAM_ID, false, vec![0; 82]),
        account(ata(MAKER, MINT_A), TOKEN_PROGRAM_ID, false, vec![0; 165]),
        account(ata(escrow, MINT_A), SYSTEM_PROGRAM_ID, false, vec![]),
        account(SYSTEM_PROGRAM_ID, SYSTEM_PROGRAM_ID, false, vec![]),
        account(TOKEN_PROGRAM_ID, SYSTEM_PROGRAM_ID, false, vec![]),
        account([99; 32], SYSTEM_PROGRAM_ID, false, vec![]),
    ]
}

fn escrow_signer_seeds() -> Vec<Vec<u8>> {
    vec![b"escrow".to_vec(), MAKER.to_vec(), SEED.to_le_bytes().to_vec(), vec![escrow_pda().1]]
}

/// The escrow record as `make` writes it.
fn made_record() -> Vec<u8> {
    let make = Make::try_from(&make_data(SEED, RECEIVE, AMOUNT), &make_accounts()).unwrap();
    let mut data = vec![0u8; Escrow::LEN];
    make.process(&mut data).unwrap();
    data
}

fn take_accounts() -> Vec<AccountView> {
    let escrow = escrow_pda().0;
    vec![
        account(TAKER, SYSTEM_PROGRAM_ID, true, vec![]),
        account(MAKER, SYSTEM_PROGRAM_ID, false, vec![]),
        account(escrow, ID, false, made_record()),
        account(MINT_A, TOKEN_PROGRAM_ID, false, vec![0; 82]),
        account(MINT_B, TOKEN_PROGRAM_ID, false, vec![0; 82]),
        account(ata(escrow, MINT_A), TOKEN_PROGRAM_ID, false, vec![0; 165]),
        account(ata(TAKER, MINT_A), SYSTEM_PROGRAM_ID, false, vec![]),
        account(ata(TAKER, MINT_B), TOKEN_PROGRAM_ID, false, vec![0; 165]),
        account(ata(MAKER, MINT_B), SYSTEM_PROGRAM_ID, false, vec![]),
        account(SYSTEM_PROGRAM_ID, SYSTEM_PROGRAM_ID, false, vec![]),
        account(TOKEN_PROGRAM_ID, SYSTEM_PROGRAM_ID, false, vec![]),
        account([99; 32], SYSTEM_PROGRAM_ID, false, vec![]),
    ]
}

fn refund_accounts() -> Vec<AccountView> {
    let escrow = escrow_pda().0;
    vec![
        account(MAKER, SYSTEM_PROGRAM_ID, true, vec![]),
        account(escrow, ID, false, made_record()),
        account(MINT_A, TOKEN_PROGRAM_ID, false, vec![0; 82]),
        account(ata(escrow, MINT_A), TOKEN_PROGRAM_ID, false, vec![0; 165]),
        account(ata(MAKER, MINT_A), TOKEN_PROGRAM_ID, false, vec![0; 165]),
        account(SYSTEM_PROGRAM_ID, SYSTEM_PROGRAM_ID, false, vec![]),
        account(TOKEN_PROGRAM_ID, SYSTEM_PROGRAM_ID, false, vec![]),
        account([99; 32], SYSTEM_PROGRAM_ID, false, vec![]),
    ]
}

#[test]
fn make_data_parses_three_le_values() {
    let ix = MakeInstructionData::try_from(&make_data(1, 2, 3)).unwrap();
    assert_eq!(ix, MakeInstructionData { seed: 1, receive: 2, amount: 3 });
}

#[test]
fn make_data_rejects_wrong_length() {
    let mut d = make_data(1, 2, 3);
    d.push(0);
    assert_eq!(MakeInstructionData::try_from(&d), Err(ProgramError::InvalidInstructionData));
    assert_eq!(MakeInstructionData::try_from(&d[..23]), Err(ProgramError::InvalidInstructionData));
}

#[test]
fn make_data_rejects_zero_amount_or_receive() {
    assert_eq!(MakeInstructionData::try_from(&make_data(1, 2, 0)), Err(ProgramError::InvalidInstructionData));
    assert_eq!(MakeInstructionData::try_from(&make_data(1, 0, 3)), Err(ProgramError::InvalidInstructionData));
    assert!(MakeInstructionData::try_from(&make_data(0, 1, 1)).is_ok());
}

#[test]
fn make_accounts_need_exactly_nine() {
    let mut accounts = make_accounts();
    accounts.pop();
    assert_eq!(MakeAccounts::try_from(&accounts), Err(ProgramError::NotEnoughAccountKeys));
    let mut accounts = make_accounts();
    accounts.push(account([98; 32], SYSTEM_PROGRAM_ID, false, vec![]));
    assert_eq!(MakeAccounts::try_from(&accounts), Err(ProgramError::NotEnoughAccountKeys));
}

#[test]
fn make_requires_maker_signature() {
    let mut accounts = make_accounts();
    accounts[0].is_signer = false;
    assert_eq!(
        Make::try_from(&make_data(SEED, RECEIVE, AMOUNT), &accounts),
        Err(ProgramError::MissingRequiredSignature)
    );
}

#[test]
fn make_checks_accounts_before_data() {
    let mut accounts = make_accounts();
    accounts[3].owner = SYSTEM_PROGRAM_ID;
    assert_eq!(Make::try_from(&make_data(SEED, RECEIVE, 0), &accounts), Err(ProgramError::InvalidAccountOwner));
}

#[test]
fn make_rejects_wrong_maker_ata() {
    let mut accounts = make_accounts();
    accounts[4].address = [55; 32];
    assert_eq!(
        Make::try_from(&make_data(SEED, RECEIVE, AMOUNT), &accounts),
        Err(ProgramError::InvalidAccountData)
    );
}

#[test]
fn make_rejects_escrow_not_at_derived_address() {
    let mut accounts = make_accounts();
    accounts[1].address = [56; 32];
    assert_eq!(Make::try_from(&make_data(SEED, RECEIVE, AMOUNT), &accounts), Err(ProgramError::InvalidArgument));
    // The escrow address depends on the seed.
    assert_eq!(
        Make::try_from(&make_data(SEED + 1, RECEIVE, AMOUNT), &make_accounts()),
        Err(ProgramError::InvalidArgument)
    );
}

#[test]
fn make_from_derived_cases() {
    let acc = MakeAccounts::try_from(&make_accounts()).unwrap();
    let ix = MakeInstructionData { seed: SEED, receive: RECEIVE, amount: AMOUNT };
    assert_eq!(Make::from_derived(acc, ix, None), Err(ProgramError::InvalidSeeds));
    assert_eq!(Make::from_derived(acc, ix, Some(([1; 32], 3))), Err(ProgramError::InvalidArgument));
    let m = Make::from_derived(acc, ix, Some((acc.escrow, 3))).unwrap();
    assert_eq!(m.escrow_bump, [3]);
}

#[test]
fn make_setup_creates_escrow_then_vault() {
    let accounts = make_accounts();
    let make = Make::try_from(&make_data(SEED, RECEIVE, AMOUNT), &accounts).unwrap();
    assert_eq!(make.escrow_bump, [escrow_pda().1]);
    let actions = make.setup(6960).unwrap();
    assert_eq!(
        actions,
        vec![
            Action::CreateAccount {
                from: MAKER,
                to: escrow_pda().0,
                lamports: (128 + 113) * 6960,
                space: 113,
                owner: ID,
                signer_seeds: escrow_signer_seeds(),
            },
            Action::CreateAssociatedTokenAccount {
                funding_account: MAKER,
                account: accounts[5].address,
                wallet: escrow_pda().0,
                mint: MINT_A,
                system_program: SYSTEM_PROGRAM_ID,
                token_program: TOKEN_PROGRAM_ID,
                idempotent: false,
            },
        ]
    );
}

#[test]
fn make_setup_refuses_excessive_rent_rate() {
    let make = Make::try_from(&make_data(SEED, RECEIVE, AMOUNT), &make_accounts()).unwrap();
    assert_eq!(make.setup(u64::MAX), Err(ProgramError::InvalidArgument));
}

#[test]
fn make_process_writes_record_and_deposits() {
    let accounts = make_accounts();
    let make = Make::try_from(&make_data(SEED, RECEIVE, AMOUNT), &accounts).unwrap();
    let mut data = vec![0u8; 113];
    let actions = make.process(&mut data).unwrap();
    let record = Escrow::load(&data).unwrap();
    assert_eq!(record.seed, SEED.to_le_bytes());
    assert_eq!(record.maker, MAKER);
    assert_eq!(record.mint_a, MINT_A);
    assert_eq!(record.mint_b, MINT_B);
    assert_eq!(record.receive(), RECEIVE);
    assert_eq!(record.bump, [escrow_pda().1]);
    assert_eq!(
        actions,
        vec![Action::Transfer {
            from: accounts[4].address,
            to: accounts[5].address,
            authority: MAKER,
            amount: AMOUNT,
            signer_seeds: vec![],
        }]
    );
}

#[test]
fn make_process_rejects_unsized_escrow() {
    let make = Make::try_from(&make_data(SEED, RECEIVE, AMOUNT), &make_accounts()).unwrap();
    let mut data = vec![];
    assert_eq!(make.process(&mut data), Err(ProgramError::InvalidAccountData));
    assert!(data.is_empty());
}

#[test]
fn take_validates_and_swaps() {
    let accounts = take_accounts();
    let take = Take::try_from(&accounts).unwrap();
    assert_eq!(
        take.setup(),
        vec![
            Action::CreateAssociatedTokenAccount {
                funding_account: TAKER,
                account: accounts[6].address,
                wallet: TAKER,
                mint: MINT_A,
                system_program: SYSTEM_PROGRAM_ID,
                token_program: TOKEN_PROGRAM_ID,
                idempotent: true,
            },
            Action::CreateAssociatedTokenAccount {
                funding_account: TAKER,
                account: accounts[8].address,
                wallet: MAKER,
                mint: MINT_B,
                system_program: SYSTEM_PROGRAM_ID,
                token_program: TOKEN_PROGRAM_ID,
                idempotent: true,
            },
        ]
    );
    let escrow = escrow_pda().0;
    assert_eq!(
        take.process(AMOUNT),
        vec![
            Action::Transfer {
                from: accounts[7].address,
                to: accounts[8].address,
                authority: TAKER,
                amount: RECEIVE,
                signer_seeds: vec![],
            },
            Action::Transfer {
                from: accounts[5].address,
                to: accounts[6].address,
                authority: escrow,
                amount: AMOUNT,
                signer_seeds: escrow_signer_seeds(),
            },
            Action::CloseTokenAccount {
                account: accounts[5].address,
                destination: MAKER,
                authority: escrow,
                signer_seeds: escrow_signer_seeds(),
            },
            Action::CloseProgramAccount { account: escrow, destination: MAKER },
        ]
    );
}

#[test]
fn take_needs_exactly_twelve_accounts() {
    let mut accounts = take_accounts();
    accounts.pop();
    assert_eq!(Take::try_from(&accounts), Err(ProgramError::NotEnoughAccountKeys));
}

#[test]
fn take_requires_taker_signature() {
    let mut accounts = take_accounts();
    accounts[0].is_signer = false;
    assert_eq!(Take::try_from(&accounts), Err(ProgramError::MissingRequiredSignature));
}

#[test]
fn take_rejects_foreign_escrow() {
    let mut accounts = take_accounts();
    accounts[2].owner = SYSTEM_PROGRAM_ID;
    assert_eq!(Take::try_from(&accounts), Err(ProgramError::InvalidAccountOwner));
    let mut accounts = take_accounts();
    accounts[2].data.push(0);
    assert_eq!(Take::try_from(&accounts), Err(ProgramError::InvalidAccountData));
}

#[test]
fn take_rejects_mints_other_than_recorded() {
    let mut accounts = take_accounts();
    accounts[3].address = MINT_B;
    assert_eq!(Take::try_from(&accounts), Err(ProgramError::InvalidAccountData));
    let mut accounts = take_accounts();
    accounts[4].address = MINT_A;
    assert_eq!(Take::try_from(&accounts), Err(ProgramError::InvalidAccountData));
}

#[test]
fn take_rejects_wrong_vault_and_taker_ata() {
    let mut accounts = take_accounts();
    accounts[5].address = [77; 32];
    assert_eq!(Take::try_from(&accounts), Err(ProgramError::InvalidAccountData));
    let mut accounts = take_accounts();
    accounts[7].address = [78; 32];
    assert_eq!(Take::try_from(&accounts), Err(ProgramError::InvalidAccountData));
}

#[test]
fn refund_validates_and_returns_everything() {
    let accounts = refund_accounts();
    let refund = Refund::try_from(&accounts).unwrap();
    assert_eq!(
        refund.setup(),
        vec![Action::CreateAssociatedTokenAccount {
            funding_account: MAKER,
            account: accounts[4].address,
            wallet: MAKER,
            mint: MINT_A,
            system_program: SYSTEM_PROGRAM_ID,
            token_program: TOKEN_PROGRAM_ID,
            idempotent: true,
        }]
    );
    let escrow = escrow_pda().0;
    assert_eq!(
        refund.process(AMOUNT),
        vec![
            Action::Transfer {
                from: accounts[3].address,
                to: accounts[4].address,
                authority: escrow,
                amount: AMOUNT,
                signer_seeds: escrow_signer_seeds(),
            },
            Action::CloseTokenAccount {
                account: accounts[3].address,
                destination: MAKER,
                authority: escrow,
                signer_seeds: escrow_signer_seeds(),
            },
            Action::CloseProgramAccount { account: escrow, destination: MAKER },
        ]
    );
}

#[test]
fn refund_requires_maker_signature_and_recorded_mint() {
    let mut accounts = refund_accounts();
    accounts[0].is_signer = false;
    assert_eq!(Refund::try_from(&accounts), Err(ProgramError::MissingRequiredSignature));
    let mut accounts = refund_accounts();
    accounts[2].address = MINT_B;
    assert_eq!(Refund::try_from(&accounts), Err(ProgramError::InvalidAccountData));
    let mut accounts = refund_accounts();
    accounts.push(account([98; 32], SYSTEM_PROGRAM_ID, false, vec![]));
    assert_eq!(Refund::try_from(&accounts), Err(ProgramError::NotEnoughAccountKeys));
}

#[test]
fn refund_rejects_wrong_maker_ata() {
    let mut accounts = refund_accounts();
    accounts[4].address = [79; 32];
    assert_eq!(Refund::try_from(&accounts), Err(ProgramError::InvalidAccountData));
}

#[test]
fn parse_instruction_by_discriminator() {
    assert_eq!(parse_instruction(&[0, 9, 8]), Ok((EscrowInstruction::Make, &[9u8, 8][..])));
    assert_eq!(parse_instruction(&[1]), Ok((EscrowInstruction::Take, &[][..])));
    assert_eq!(parse_instruction(&[2, 5]), Ok((EscrowInstruction::Refund, &[5u8][..])));
    assert_eq!(parse_instruction(&[3]), Err(ProgramError::InvalidInstructionData));
    assert_eq!(parse_instruction(&[]), Err(ProgramError::InvalidInstructionData));
}
