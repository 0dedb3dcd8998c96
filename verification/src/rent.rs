use vstd::prelude::*;

verus! {

/// Largest account data length, in bytes, that the runtime permits (10 MiB).
pub const MAX_PERMITTED_DATA_LENGTH: u64 = 10485760;

/// Largest rent rate, in lamports per byte, for which the rent-exempt
/// minimum of any permitted length fits in a `u64`.
pub const MAX_LAMPORTS_PER_BYTE: u64 = 1759197129867;

/// Bytes of account storage charged on top of the data.
pub const ACCOUNT_STORAGE_OVERHEAD: u64 = 128;

/// The rent-exempt minimum balance of an account with `data_len` bytes of
/// data at `lamports_per_byte`: `(128 + data_len) * lamports_per_byte`, or
/// `None` when the length is over the permitted maximum or the rate over its
/// maximum.
pub open spec fn rent_exempt_minimum(lamports_per_byte: u64, data_len: usize) -> Option<u64> {
    if data_len > MAX_PERMITTED_DATA_LENGTH || lamports_per_byte > MAX_LAMPORTS_PER_BYTE {
        None
    } else {
        Some(((ACCOUNT_STORAGE_OVERHEAD + data_len) * lamports_per_byte) as u64)
    }
}

/// The product in `rent_exempt_minimum` fits in a `u64` whenever it is
/// defined.
pub proof fn lemma_rent_exempt_minimum_fits(lamports_per_byte: u64, data_len: usize)
    requires
        data_len <= MAX_PERMITTED_DATA_LENGTH,
        lamports_per_byte <= MAX_LAMPORTS_PER_BYTE,
    ensures
        (ACCOUNT_STORAGE_OVERHEAD + data_len) * lamports_per_byte <= u64::MAX,
{
    assert((ACCOUNT_STORAGE_OVERHEAD + data_len) * lamports_per_byte <= (ACCOUNT_STORAGE_OVERHEAD
        + MAX_PERMITTED_DATA_LENGTH) * MAX_LAMPORTS_PER_BYTE) by (nonlinear_arith)
        requires
            data_len <= MAX_PERMITTED_DATA_LENGTH,
            lamports_per_byte <= MAX_LAMPORTS_PER_BYTE,
    ;
}

/// Calls `pinocchio::sysvars::rent::Rent::try_minimum_balance` on the rent
/// whose rate is `lamports_per_byte` (built with `Rent::from_bytes`).
///
/// Trusted: the outside function refuses a length over 10 MiB or a rate over
/// its maximum, and otherwise returns `(128 + data_len) * lamports_per_byte`.
#[verifier::external_body]
pub(crate) fn minimum_balance(lamports_per_byte: u64, data_len: usize) -> (r: Option<u64>)
    ensures
        r == rent_exempt_minimum(lamports_per_byte, data_len),
{
    match pinocchio::sysvars::rent::Rent::from_bytes(&lamports_per_byte.to_le_bytes()) {
        Ok(rent) => rent.try_minimum_balance(data_len).ok(),
        Err(_) => None,
    }
}

} // verus!
