use blueshift_escrow::error::ProgramError;
use blueshift_escrow::state::Escrow;

fn sample() -> Escrow {
    Escrow {
        seed: 7u64.to_le_bytes(),
        maker: [1; 32],
        mint_a: [2; 32],
        mint_b: [3; 32],
        receive: 500u64.to_le_bytes(),
        bump: [254],
    }
}

#[test]
fn escrow_len_is_layout_size() {
    assert_eq!(Escrow::LEN, 8 + 32 + 32 + 32 + 8 + 1);
    assert_eq!(Escrow::LEN, 113);
}

#[test]
fn load_rejects_wrong_length() {
    assert_eq!(Escrow::load(&[0u8; 112]).unwrap_err(), ProgramError::InvalidAccountData);
    assert_eq!(Escrow::load(&[0u8; 114]).unwrap_err(), ProgramError::InvalidAccountData);
    assert_eq!(Escrow::load(&[]).unwrap_err(), ProgramError::InvalidAccountData);
}

#[test]
fn load_reads_fields_at_offsets() {
    let mut bytes = vec![0u8; 113];
    bytes[0..8].copy_from_slice(&42u64.to_le_bytes());
    bytes[8..40].copy_from_slice(&[9; 32]);
    bytes[40..72].copy_from_slice(&[10; 32]);
    bytes[72..104].copy_from_slice(&[11; 32]);
    bytes[104..112].copy_from_slice(&1_000_000u64.to_le_bytes());
    bytes[112] = 200;
    let e = Escrow::load(&bytes).unwrap();
    assert_eq!(e.seed, 42u64.to_le_bytes());
    assert_eq!(e.maker, [9; 32]);
    assert_eq!(e.mint_a, [10; 32]);
    assert_eq!(e.mint_b, [11; 32]);
    assert_eq!(e.receive(), 1_000_000);
    assert_eq!(e.bump, [200]);
}

#[test]
fn store_writes_layout() {
    let e = sample();
    let mut bytes = vec![0xAAu8; 113];
    e.store(&mut bytes).unwrap();
    assert_eq!(&bytes[0..8], &7u64.to_le_bytes());
    assert_eq!(&bytes[8..40], &[1u8; 32]);
    assert_eq!(&bytes[40..72], &[2u8; 32]);
    assert_eq!(&bytes[72..104], &[3u8; 32]);
    assert_eq!(&bytes[104..112], &500u64.to_le_bytes());
    assert_eq!(bytes[112], 254);
}

#[test]
fn store_rejects_wrong_length_and_leaves_data() {
    let e = sample();
    let mut bytes = vec![5u8; 100];
    assert_eq!(e.store(&mut bytes).unwrap_err(), ProgramError::InvalidAccountData);
    assert_eq!(bytes, vec![5u8; 100]);
}

#[test]
fn store_then_load_gives_record_back() {
    let e = sample();
    let mut bytes = vec![0u8; 113];
    e.store(&mut bytes).unwrap();
    assert_eq!(Escrow::load(&bytes).unwrap(), e);
}

#[test]
fn set_inner_then_receive_reads_amount_back() {
    let mut e = sample();
    e.set_inner(0x0102_0304_0506_0708, [4; 32], [5; 32], [6; 32], u64::MAX, [1]);
    assert_eq!(e.receive(), u64::MAX);
    assert_eq!(e.seed, [8, 7, 6, 5, 4, 3, 2, 1]);
    assert_eq!(e.maker, [4; 32]);
    assert_eq!(e.mint_a, [5; 32]);
    assert_eq!(e.mint_b, [6; 32]);
    assert_eq!(e.bump, [1]);
}

#[test]
fn receive_is_little_endian() {
    let mut e = sample();
    e.receive = [1, 0, 0, 0, 0, 0, 0, 0];
    assert_eq!(e.receive(), 1);
    e.receive = [0, 1, 0, 0, 0, 0, 0, 0];
    assert_eq!(e.receive(), 256);
}
