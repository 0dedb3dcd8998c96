use vstd::prelude::*;
use vstd::bytes::{spec_u64_from_le_bytes, spec_u64_to_le_bytes, u64_from_le_bytes, u64_to_le_bytes};

use crate::account::Address;
use crate::error::ProgramError;

verus! {

broadcast use vstd::array::group_array_axioms;

/// The escrow record: 113 bytes, every field a byte array, laid out in field
/// order with no padding.
///
/// | offset | field | size |
/// |--------|-------|------|
/// | 0 | seed (u64 LE) | 8 |
/// | 8 | maker | 32 |
/// | 40 | mint_a | 32 |
/// | 72 | mint_b | 32 |
/// | 104 | receive (u64 LE) | 8 |
/// | 112 | bump | 1 |
#[derive(Clone, Copy, Debug, PartialEq, Eq)]
pub struct Escrow {
    pub seed: [u8; 8],
    pub maker: Address,
    pub mint_a: Address,
    pub mint_b: Address,
    pub receive: [u8; 8],
    pub bump: [u8; 1],
}

/// The little-endian value of eight bytes.
pub open spec fn le_u64(bytes: Seq<u8>) -> u64 {
    spec_u64_from_le_bytes(bytes)
}

/// The eight little-endian bytes of a value.
pub open spec fn u64_le(x: u64) -> Seq<u8> {
    spec_u64_to_le_bytes(x)
}

/// Copies `N` bytes of `bytes`, starting at `start`, into an array.
fn read_array<const N: usize>(bytes: &[u8], start: usize) -> (r: [u8; N])
    requires
        start + N <= bytes@.len(),
    ensures
        r@ == bytes@.subrange(start as int, start + N),
{
    let len: usize = bytes.len();
    let mut r = [0u8; N];
    let mut i: usize = 0;
    while i < N
        invariant
            i <= N,
            len == bytes@.len(),
            start + N <= len,
            r@.len() == N,
            forall|j: int| 0 <= j < i ==> r@[j] == bytes@[start + j],
        decreases N - i,
    {
        r[i] = bytes[start + i];
        i = i + 1;
    }
    assert(r@ =~= bytes@.subrange(start as int, start + N));
    r
}

/// Copies an array into `bytes`, starting at `start`; the other bytes stay.
fn write_array<const N: usize>(bytes: &mut Vec<u8>, start: usize, src: &[u8; N])
    requires
        start + N <= old(bytes)@.len(),
    ensures
        final(bytes)@.len() == old(bytes)@.len(),
        final(bytes)@.subrange(start as int, start + N) == src@,
        forall|j: int|
            0 <= j < old(bytes)@.len() && !(start <= j < start + N) ==> final(bytes)@[j]
                == old(bytes)@[j],
{
    let len: usize = bytes.len();
    let mut i: usize = 0;
    while i < N
        invariant
            i <= N,
            len == old(bytes)@.len(),
            bytes@.len() == len,
            start + N <= len,
            forall|j: int| 0 <= j < i ==> bytes@[start + j] == src@[j],
            forall|j: int|
                0 <= j < len && !(start <= j < start + i) ==> bytes@[j] == old(bytes)@[j],
        decreases N - i,
    {
        bytes.set(start + i, src[i]);
        i = i + 1;
    }
    assert(bytes@.subrange(start as int, start + N) =~= src@);
}

/// The eight little-endian bytes of `x`, as an array.
pub fn le_bytes(x: u64) -> (r: [u8; 8])
    ensures
        r@ == u64_le(x),
{
    let v = u64_to_le_bytes(x);
    read_array::<8>(v.as_slice(), 0)
}

impl Escrow {
    /// Length of the record in bytes.
    pub const LEN: usize = 113;

    /// The record's bytes, field after field.
    pub open spec fn spec_bytes(&self) -> Seq<u8> {
        self.seed@ + self.maker@ + self.mint_a@ + self.mint_b@ + self.receive@ + self.bump@
    }

    /// Reads the record out of an account's data, which must be exactly
    /// `LEN` bytes long.
    pub fn load(bytes: &[u8]) -> (r: Result<Escrow, ProgramError>)
        ensures
            match r {
                Ok(escrow) => bytes@.len() == Self::LEN && escrow.spec_bytes() == bytes@,
                Err(e) => bytes@.len() != Self::LEN && e == ProgramError::InvalidAccountData,
            },
    {
        if bytes.len() != Self::LEN {
            return Err(ProgramError::InvalidAccountData);
        }
        let escrow = Escrow {
            seed: read_array::<8>(bytes, 0),
            maker: read_array::<32>(bytes, 8),
            mint_a: read_array::<32>(bytes, 40),
            mint_b: read_array::<32>(bytes, 72),
            receive: read_array::<8>(bytes, 104),
            bump: read_array::<1>(bytes, 112),
        };
        assert(escrow.spec_bytes() =~= bytes@);
        Ok(escrow)
    }

    /// Writes the record into an account's data, which must be exactly `LEN`
    /// bytes long; otherwise the data is left as it was.
    pub fn store(&self, bytes: &mut Vec<u8>) -> (r: Result<(), ProgramError>)
        ensures
            match r {
                Ok(()) => old(bytes)@.len() == Self::LEN && final(bytes)@ == self.spec_bytes(),
                Err(e) => old(bytes)@.len() != Self::LEN && e == ProgramError::InvalidAccountData
                    && final(bytes)@ == old(bytes)@,
            },
    {
        if bytes.len() != Self::LEN {
            return Err(ProgramError::InvalidAccountData);
        }
        write_array::<8>(bytes, 0, &self.seed);
        write_array::<32>(bytes, 8, &self.maker);
        write_array::<32>(bytes, 40, &self.mint_a);
        write_array::<32>(bytes, 72, &self.mint_b);
        write_array::<8>(bytes, 104, &self.receive);
        write_array::<1>(bytes, 112, &self.bump);
        assert(bytes@ =~= self.spec_bytes()) by {
            assert(bytes@.subrange(0, 8) == self.seed@);
            assert(bytes@.subrange(8, 40) == self.maker@);
            assert(bytes@.subrange(40, 72) == self.mint_a@);
            assert(bytes@.subrange(72, 104) == self.mint_b@);
            assert(bytes@.subrange(104, 112) == self.receive@);
            assert(bytes@.subrange(112, 113) == self.bump@);
        }
        Ok(())
    }

    /// The amount of mint B the maker asks for.
    pub fn receive(&self) -> (r: u64)
        ensures
            r == le_u64(self.receive@),
    {
        u64_from_le_bytes(self.receive.as_slice())
    }

    /// Overwrites every field of the record.
    pub fn set_inner(
        &mut self,
        seed: u64,
        maker: Address,
        mint_a: Address,
        mint_b: Address,
        receive: u64,
        bump: [u8; 1],
    )
        ensures
            final(self).seed@ == u64_le(seed),
            final(self).maker == maker,
            final(self).mint_a == mint_a,
            final(self).mint_b == mint_b,
            final(self).receive@ == u64_le(receive),
            final(self).bump == bump,
    {
        self.seed = le_bytes(seed);
        self.maker = maker;
        self.mint_a = mint_a;
        self.mint_b = mint_b;
        self.receive = le_bytes(receive);
        self.bump = bump;
    }
}

/// An amount written by `set_inner` reads back unchanged through
/// `receive`: decoding the little-endian bytes of `x` gives `x`, and the
/// bytes are exactly eight.
pub proof fn lemma_u64_le_roundtrip(x: u64)
    ensures
        u64_le(x).len() == 8,
        le_u64(u64_le(x)) == x,
{
    vstd::bytes::lemma_auto_spec_u64_to_from_le_bytes();
}

/// A record read back from the bytes that `store` wrote is the record that
/// was stored: two records with the same bytes are equal.
pub proof fn lemma_store_then_load(stored: Escrow, loaded: Escrow)
    requires
        loaded.spec_bytes() == stored.spec_bytes(),
    ensures
        loaded == stored,
{
    let b = stored.spec_bytes();
    assert(loaded.seed@ =~= b.subrange(0, 8));
    assert(stored.seed@ =~= b.subrange(0, 8));
    assert(loaded.maker@ =~= b.subrange(8, 40));
    assert(stored.maker@ =~= b.subrange(8, 40));
    assert(loaded.mint_a@ =~= b.subrange(40, 72));
    assert(stored.mint_a@ =~= b.subrange(40, 72));
    assert(loaded.mint_b@ =~= b.subrange(72, 104));
    assert(stored.mint_b@ =~= b.subrange(72, 104));
    assert(loaded.receive@ =~= b.subrange(104, 112));
    assert(stored.receive@ =~= b.subrange(104, 112));
    assert(loaded.bump@ =~= b.subrange(112, 113));
    assert(stored.bump@ =~= b.subrange(112, 113));
    assert(loaded.seed == stored.seed);
    assert(loaded.maker == stored.maker);
    assert(loaded.mint_a == stored.mint_a);
    assert(loaded.mint_b == stored.mint_b);
    assert(loaded.receive == stored.receive);
    assert(loaded.bump == stored.bump);
}

} // verus!
