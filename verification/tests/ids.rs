use blueshift_escrow::ids::{
    ASSOCIATED_TOKEN_PROGRAM_ID, ID, SYSTEM_PROGRAM_ID, TOKEN_2022_MINT_BASE_LEN,
    TOKEN_2022_PROGRAM_ID, TOKEN_MINT_LEN, TOKEN_PROGRAM_ID,
};
use std::str::FromStr;

#[test]
fn program_ids_match_outside_crates() {
    assert_eq!(TOKEN_PROGRAM_ID, pinocchio_token::ID.to_bytes());
    assert_eq!(TOKEN_2022_PROGRAM_ID, pinocchio_token_2022::ID.to_bytes());
    assert_eq!(ASSOCIATED_TOKEN_PROGRAM_ID, pinocchio_associated_token_account::ID.to_bytes());
    assert_eq!(SYSTEM_PROGRAM_ID, pinocchio_system::ID.to_bytes());
}

#[test]
fn program_id_is_the_challenge_address() {
    let id = solana_address::Address::from_str("22222222222222222222222222222222222222222222").unwrap();
    assert_eq!(ID, id.to_bytes());
}

#[test]
fn mint_lengths_match_outside_crates() {
    assert_eq!(TOKEN_MINT_LEN, pinocchio_token::state::Mint::LEN);
    assert_eq!(TOKEN_2022_MINT_BASE_LEN, pinocchio_token_2022::state::Mint::BASE_LEN);
}
