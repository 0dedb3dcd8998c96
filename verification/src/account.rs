use vstd::prelude::*;

use crate::ids::SYSTEM_PROGRAM_ID;

verus! {

/// An account address: 32 bytes.
pub type Address = [u8; 32];

/// Compares two addresses byte for byte.
pub fn address_eq(a: &Address, b: &Address) -> (r: bool)
    ensures
        r == (a@ == b@),
{
    let mut i: usize = 0;
    while i < 32
        invariant
            i <= 32,
            forall|j: int| 0 <= j < i ==> a@[j] == b@[j],
        decreases 32 - i,
    {
        if a[i] != b[i] {
            assert(a@[i as int] != b@[i as int]);
            return false;
        }
        i = i + 1;
    }
    assert(a@ =~= b@);
    true
}

/// What the program reads of an account handed to it by the runtime: its
/// address, the program that owns it, whether it signed, its lamports and its
/// data.
#[derive(Clone, Debug, PartialEq, Eq)]
pub struct AccountView {
    pub address: Address,
    pub owner: Address,
    pub is_signer: bool,
    pub is_writable: bool,
    pub lamports: u64,
    pub data: Vec<u8>,
}

impl AccountView {
    /// The account's address.
    pub fn address(&self) -> (r: &Address)
        ensures
            *r == self.address,
    {
        &self.address
    }

    /// Whether the transaction was signed by this account.
    pub fn is_signer(&self) -> (r: bool)
        ensures
            r == self.is_signer,
    {
        self.is_signer
    }

    /// Whether `program` owns this account.
    pub fn owned_by(&self, program: &Address) -> (r: bool)
        ensures
            r == (self.owner@ == program@),
    {
        address_eq(&self.owner, program)
    }

    /// Length of the account's data.
    pub fn data_len(&self) -> (r: usize)
        ensures
            r == self.data@.len(),
    {
        self.data.len()
    }

    /// The account's lamports.
    pub fn lamports(&self) -> (r: u64)
        ensures
            r == self.lamports,
    {
        self.lamports
    }

    /// Sets the account's lamports and nothing else.
    pub fn set_lamports(&mut self, lamports: u64)
        ensures
            final(self).lamports == lamports,
            final(self).address == old(self).address,
            final(self).owner == old(self).owner,
            final(self).is_signer == old(self).is_signer,
            final(self).is_writable == old(self).is_writable,
            final(self).data@ == old(self).data@,
    {
        self.lamports = lamports;
    }

    /// Closes the account: its owner, lamports and data length become zero.
    pub fn close(&mut self)
        ensures
            final(self).lamports == 0,
            final(self).data@.len() == 0,
            final(self).owner == SYSTEM_PROGRAM_ID,
            final(self).address == old(self).address,
            final(self).is_signer == old(self).is_signer,
            final(self).is_writable == old(self).is_writable,
    {
        self.owner = SYSTEM_PROGRAM_ID;
        self.lamports = 0;
        self.data = Vec::new();
    }
}

} // verus!
