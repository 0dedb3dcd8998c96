use blueshift_escrow::account::AccountView;
use blueshift_escrow::cpi::Action;
use blueshift_escrow::error::ProgramError;
use blueshift_escrow::ids::{
    ASSOCIATED_TOKEN_PROGRAM_ID, ID, SYSTEM_PROGRAM_ID, TOKEN_2022_PROGRAM_ID, TOKEN_PROGRAM_ID,
};
use blueshift_escrow::instructions::helpers::{
    AssociatedTokenAccount, MintInterface, ProgramAccount, SignerAccount,
};

fn account(address: [u8; 32], owner: [u8; 32], is_signer: bool, lamports: u64, len: usize) -> AccountView {
    AccountView { address, owner, is_signer, is_writable: true, lamports, data: vec![0; len] }
}

fn ata(wallet: [u8; 32], mint: [u8; 32], token_program: [u8; 32]) -> [u8; 32] {
    solana_address::Address::derive_program_address(
        &[&wallet, &token_program, &mint],
        &solana_address::Address::new_from_array(ASSOCIATED_TOKEN_PROGRAM_ID),
    )
    .unwrap()
    .0
    .to_bytes()
}

#[test]
fn signer_check_requires_signature() {
    assert_eq!(SignerAccount::check(&account([1; 32], SYSTEM_PROGRAM_ID, true, 0, 0)), Ok(()));
    assert_eq!(
        SignerAccount::check(&account([1; 32], SYSTEM_PROGRAM_ID, false, 0, 0)),
        Err(ProgramError::MissingRequiredSignature)
    );
}

#[test]
fn mint_check_spl_token_exact_length() {
    assert_eq!(MintInterface::check(&account([2; 32], TOKEN_PROGRAM_ID, false, 0, 82)), Ok(()));
    assert_eq!(
        MintInterface::check(&account([2; 32], TOKEN_PROGRAM_ID, false, 0, 83)),
        Err(ProgramError::InvalidAccountData)
    );
    assert_eq!(
        MintInterface::check(&account([2; 32], TOKEN_PROGRAM_ID, false, 0, 81)),
        Err(ProgramError::InvalidAccountData)
    );
}

#[test]
fn mint_check_token_2022_minimum_length() {
    assert_eq!(MintInterface::check(&account([2; 32], TOKEN_2022_PROGRAM_ID, false, 0, 82)), Ok(()));
    assert_eq!(MintInterface::check(&account([2; 32], TOKEN_2022_PROGRAM_ID, false, 0, 300)), Ok(()));
    assert_eq!(
        MintInterface::check(&account([2; 32], TOKEN_2022_PROGRAM_ID, false, 0, 81)),
        Err(ProgramError::InvalidAccountData)
    );
}

#[test]
fn mint_check_rejects_other_owner() {
    assert_eq!(
        MintInterface::check(&account([2; 32], SYSTEM_PROGRAM_ID, false, 0, 82)),
        Err(ProgramError::InvalidAccountOwner)
    );
}

#[test]
fn ata_check_accepts_derived_address() {
    let wallet = [7; 32];
    let mint = [8; 32];
    let address = ata(wallet, mint, TOKEN_PROGRAM_ID);
    let r = AssociatedTokenAccount::check(
        &account(address, TOKEN_PROGRAM_ID, false, 0, 165),
        &account(wallet, SYSTEM_PROGRAM_ID, true, 0, 0),
        &account(mint, TOKEN_PROGRAM_ID, false, 0, 82),
        &account(TOKEN_PROGRAM_ID, SYSTEM_PROGRAM_ID, false, 0, 0),
    );
    assert_eq!(r, Ok(()));
}

#[test]
fn ata_check_rejects_other_address() {
    let wallet = [7; 32];
    let mint = [8; 32];
    let r = AssociatedTokenAccount::check(
        &account(wallet, TOKEN_PROGRAM_ID, false, 0, 165),
        &account(wallet, SYSTEM_PROGRAM_ID, true, 0, 0),
        &account(mint, TOKEN_PROGRAM_ID, false, 0, 82),
        &account(TOKEN_PROGRAM_ID, SYSTEM_PROGRAM_ID, false, 0, 0),
    );
    assert_eq!(r, Err(ProgramError::InvalidAccountData));
}

#[test]
fn ata_check_depends_on_token_program() {
    let wallet = [7; 32];
    let mint = [8; 32];
    let address = ata(wallet, mint, TOKEN_2022_PROGRAM_ID);
    let r = AssociatedTokenAccount::check(
        &account(address, TOKEN_PROGRAM_ID, false, 0, 165),
        &account(wallet, SYSTEM_PROGRAM_ID, true, 0, 0),
        &account(mint, TOKEN_PROGRAM_ID, false, 0, 82),
        &account(TOKEN_PROGRAM_ID, SYSTEM_PROGRAM_ID, false, 0, 0),
    );
    assert_eq!(r, Err(ProgramError::InvalidAccountData));
}

#[test]
fn check_derived_cases() {
    let a = account([3; 32], TOKEN_PROGRAM_ID, false, 0, 0);
    assert_eq!(AssociatedTokenAccount::check_derived(&a, None), Err(ProgramError::InvalidSeeds));
    assert_eq!(AssociatedTokenAccount::check_derived(&a, Some(([3; 32], 250))), Ok(()));
    assert_eq!(
        AssociatedTokenAccount::check_derived(&a, Some(([4; 32], 250))),
        Err(ProgramError::InvalidAccountData)
    );
}

#[test]
fn program_account_check_owner_then_length() {
    assert_eq!(ProgramAccount::check(&account([5; 32], ID, false, 0, 113)), Ok(()));
    assert_eq!(
        ProgramAccount::check(&account([5; 32], ID, false, 0, 114)),
        Err(ProgramError::InvalidAccountData)
    );
    assert_eq!(
        ProgramAccount::check(&account([5; 32], TOKEN_PROGRAM_ID, false, 0, 114)),
        Err(ProgramError::InvalidAccountOwner)
    );
}

#[test]
fn program_account_init_creates_owned_account() {
    let seeds = vec![b"escrow".to_vec(), vec![1; 32], vec![2; 8], vec![255]];
    let a = ProgramAccount::init(&[1; 32], &[2; 32], seeds.clone(), 113, 6960).unwrap();
    assert_eq!(
        a,
        Action::CreateAccount {
            from: [1; 32],
            to: [2; 32],
            lamports: (128 + 113) * 6960,
            space: 113,
            owner: ID,
            signer_seeds: seeds,
        }
    );
}

#[test]
fn program_account_init_rent_matches_pinocchio() {
    let rent = pinocchio::sysvars::rent::Rent::from_bytes(&6960u64.to_le_bytes()).unwrap();
    let expected = rent.try_minimum_balance(113).unwrap();
    match ProgramAccount::init(&[1; 32], &[2; 32], vec![], 113, 6960).unwrap() {
        Action::CreateAccount { lamports, .. } => assert_eq!(lamports, expected),
        other => panic!("unexpected action {:?}", other),
    }
}

#[test]
fn program_account_init_refuses_uncomputable_rent() {
    assert_eq!(
        ProgramAccount::init(&[1; 32], &[2; 32], vec![], 113, 1_759_197_129_868),
        Err(ProgramError::InvalidArgument)
    );
    assert_eq!(
        ProgramAccount::init(&[1; 32], &[2; 32], vec![], 10 * 1024 * 1024 + 1, 6960),
        Err(ProgramError::InvalidArgument)
    );
    assert!(ProgramAccount::init(&[1; 32], &[2; 32], vec![], 10 * 1024 * 1024, 1_759_197_129_867).is_ok());
}

#[test]
fn program_account_close_moves_all_lamports() {
    let mut escrow = account([5; 32], ID, false, 1_500, 113);
    let mut maker = account([6; 32], SYSTEM_PROGRAM_ID, true, 10_000, 0);
    assert_eq!(ProgramAccount::close(&mut escrow, &mut maker), Ok(()));
    assert_eq!(maker.lamports, 11_500);
    assert_eq!(escrow.lamports, 0);
    assert_eq!(escrow.data.len(), 0);
    assert_eq!(escrow.owner, SYSTEM_PROGRAM_ID);
    assert_eq!(escrow.address, [5; 32]);
}

#[test]
fn program_account_close_refuses_overflow() {
    let mut escrow = account([5; 32], ID, false, 2, 113);
    let mut maker = account([6; 32], SYSTEM_PROGRAM_ID, true, u64::MAX - 1, 0);
    let before = (escrow.clone(), maker.clone());
    assert_eq!(ProgramAccount::close(&mut escrow, &mut maker), Err(ProgramError::ArithmeticOverflow));
    assert_eq!((escrow, maker), before);
}
