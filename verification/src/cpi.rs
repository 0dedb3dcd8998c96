use vstd::prelude::*;

use crate::account::Address;

verus! {

/// A step that an instruction hands to the runtime, in order; the first that
/// fails aborts the instruction. Accounts are named by address.
///
/// `signer_seeds` are the seeds of the program-derived address that signs the
/// call; an empty list means that the call needs no such signature.
#[derive(Clone, Debug, PartialEq, Eq)]
pub enum Action {
    /// System program `CreateAccount` of `space` bytes holding `lamports`.
    CreateAccount {
        from: Address,
        to: Address,
        lamports: u64,
        space: u64,
        owner: Address,
        signer_seeds: Vec<Vec<u8>>,
    },
    /// Associated Token Account program `Create`, or `CreateIdempotent`
    /// when `idempotent` holds.
    CreateAssociatedTokenAccount {
        funding_account: Address,
        account: Address,
        wallet: Address,
        mint: Address,
        system_program: Address,
        token_program: Address,
        idempotent: bool,
    },
    /// Token program `Transfer` of `amount` from `from` to `to`.
    Transfer {
        from: Address,
        to: Address,
        authority: Address,
        amount: u64,
        signer_seeds: Vec<Vec<u8>>,
    },
    /// Token program `CloseAccount`: `account`'s lamports go to `destination`.
    CloseTokenAccount {
        account: Address,
        destination: Address,
        authority: Address,
        signer_seeds: Vec<Vec<u8>>,
    },
    /// Closes an account of this program into `destination`
    /// (`ProgramAccount::close`).
    CloseProgramAccount { account: Address, destination: Address },
}

/// The bytes of the seed tag `"escrow"`.
pub open spec fn escrow_tag() -> Seq<u8> {
    seq![101u8, 115u8, 99u8, 114u8, 111u8, 119u8]
}

/// The seeds of the escrow address: the tag, the maker, the seed bytes.
pub open spec fn escrow_address_seeds(maker: Seq<u8>, seed: Seq<u8>) -> Seq<Seq<u8>> {
    seq![escrow_tag(), maker, seed]
}

/// The seeds with which the escrow address signs: those of its address and
/// the bump.
pub open spec fn escrow_signer_seeds(maker: Seq<u8>, seed: Seq<u8>, bump: Seq<u8>) -> Seq<
    Seq<u8>,
> {
    seq![escrow_tag(), maker, seed, bump]
}

/// The tag `"escrow"` as bytes.
pub fn escrow_tag_bytes() -> (r: [u8; 6])
    ensures
        r@ == escrow_tag(),
{
    let r: [u8; 6] = [101, 115, 99, 114, 111, 119];
    assert(r@ =~= escrow_tag());
    r
}

/// Builds the escrow signer seeds `["escrow", maker, seed, bump]`.
pub fn escrow_signer(maker: &Address, seed: &[u8; 8], bump: &[u8; 1]) -> (r: Vec<Vec<u8>>)
    ensures
        r.deep_view() == escrow_signer_seeds(maker@, seed@, bump@),
{
    let tag = escrow_tag_bytes();
    let mut r: Vec<Vec<u8>> = Vec::new();
    r.push(vstd::slice::slice_to_vec(tag.as_slice()));
    r.push(vstd::slice::slice_to_vec(maker.as_slice()));
    r.push(vstd::slice::slice_to_vec(seed.as_slice()));
    r.push(vstd::slice::slice_to_vec(bump.as_slice()));
    assert forall|i: int| 0 <= i < 4 implies #[trigger] r.deep_view()[i] == escrow_signer_seeds(
        maker@,
        seed@,
        bump@,
    )[i] by {
        assert(r@[i].deep_view() =~= r@[i]@);
    }
    assert(r.deep_view() =~= escrow_signer_seeds(maker@, seed@, bump@));
    r
}

} // verus!
