use vstd::prelude::*;

use crate::account::{address_eq, AccountView, Address};
use crate::cpi::Action;
use crate::error::{ProgramError, ProgramResult};
use crate::ids::{
    ASSOCIATED_TOKEN_PROGRAM_ID, ID, SYSTEM_PROGRAM_ID, TOKEN_2022_MINT_BASE_LEN,
    TOKEN_2022_PROGRAM_ID, TOKEN_MINT_LEN, TOKEN_PROGRAM_ID,
};
use crate::pda::{derive_program_address, program_address};
use crate::rent::{minimum_balance, rent_exempt_minimum};
use crate::state::Escrow;

verus! {

/// The outcome of `SignerAccount::check`.
pub open spec fn signer_check(account: AccountView) -> ProgramResult {
    if account.is_signer {
        Ok(())
    } else {
        Err(ProgramError::MissingRequiredSignature)
    }
}

/// The outcome of `MintInterface::check`: an SPL Token mint must be exactly
/// `TOKEN_MINT_LEN` bytes, a Token-2022 mint at least
/// `TOKEN_2022_MINT_BASE_LEN`; any other owner is refused.
pub open spec fn mint_check(account: AccountView) -> ProgramResult {
    if account.owner@ == TOKEN_PROGRAM_ID@ {
        if account.data@.len() != TOKEN_MINT_LEN {
            Err(ProgramError::InvalidAccountData)
        } else {
            Ok(())
        }
    } else if account.owner@ == TOKEN_2022_PROGRAM_ID@ {
        if account.data@.len() < TOKEN_2022_MINT_BASE_LEN {
            Err(ProgramError::InvalidAccountData)
        } else {
            Ok(())
        }
    } else {
        Err(ProgramError::InvalidAccountOwner)
    }
}

/// The outcome of comparing an account's address with a derived address.
pub open spec fn derived_address_check(derived: Option<(Address, u8)>, address: Address) -> ProgramResult {
    match derived {
        None => Err(ProgramError::InvalidSeeds),
        Some((found, _bump)) => if found@ == address@ {
            Ok(())
        } else {
            Err(ProgramError::InvalidAccountData)
        },
    }
}

/// The associated token account of `authority` for `mint` under
/// `token_program`.
pub open spec fn associated_token_address(
    authority: Address,
    mint: Address,
    token_program: Address,
) -> Option<(Address, u8)> {
    program_address(
        seq![authority@, token_program@, mint@],
        ASSOCIATED_TOKEN_PROGRAM_ID@,
    )
}

/// The outcome of `AssociatedTokenAccount::check`.
pub open spec fn ata_check(
    account: AccountView,
    authority: AccountView,
    mint: AccountView,
    token_program: AccountView,
) -> ProgramResult {
    derived_address_check(
        associated_token_address(authority.address, mint.address, token_program.address),
        account.address,
    )
}

/// The outcome of `ProgramAccount::check`: owned by this program and exactly
/// as long as the escrow record.
pub open spec fn program_account_check(account: AccountView) -> ProgramResult {
    if account.owner@ != ID@ {
        Err(ProgramError::InvalidAccountOwner)
    } else if account.data@.len() != Escrow::LEN {
        Err(ProgramError::InvalidAccountData)
    } else {
        Ok(())
    }
}

/// `account` was closed into `destination`: every lamport of the account
/// moved to the destination (without overflow), the account was emptied and
/// handed to the system program, and nothing else changed.
pub open spec fn closed_into(
    account: AccountView,
    destination: AccountView,
    new_account: AccountView,
    new_destination: AccountView,
) -> bool {
    &&& destination.lamports + account.lamports <= u64::MAX
    &&& new_destination.lamports == destination.lamports + account.lamports
    &&& new_destination.address == destination.address
    &&& new_destination.owner == destination.owner
    &&& new_destination.is_signer == destination.is_signer
    &&& new_destination.is_writable == destination.is_writable
    &&& new_destination.data@ == destination.data@
    &&& new_account.lamports == 0
    &&& new_account.data@.len() == 0
    &&& new_account.owner == SYSTEM_PROGRAM_ID
    &&& new_account.address == account.address
    &&& new_account.is_signer == account.is_signer
    &&& new_account.is_writable == account.is_writable
}

/// An account that must have signed the transaction.
#[derive(Clone, Copy, Debug, PartialEq, Eq)]
pub struct SignerAccount;

impl SignerAccount {
    pub fn check(account: &AccountView) -> (r: ProgramResult)
        ensures
            r == signer_check(*account),
    {
        if !account.is_signer() {
            return Err(ProgramError::MissingRequiredSignature);
        }
        Ok(())
    }
}

/// A mint of either token program.
#[derive(Clone, Copy, Debug, PartialEq, Eq)]
pub struct MintInterface;

impl MintInterface {
    pub fn check(account: &AccountView) -> (r: ProgramResult)
        ensures
            r == mint_check(*account),
    {
        if account.owned_by(&TOKEN_PROGRAM_ID) {
            if account.data_len() != TOKEN_MINT_LEN {
                return Err(ProgramError::InvalidAccountData);
            }
            Ok(())
        } else if account.owned_by(&TOKEN_2022_PROGRAM_ID) {
            if account.data_len() < TOKEN_2022_MINT_BASE_LEN {
                return Err(ProgramError::InvalidAccountData);
            }
            Ok(())
        } else {
            Err(ProgramError::InvalidAccountOwner)
        }
    }
}

/// An associated token account, re-derived from its wallet, mint and token
/// program.
#[derive(Clone, Copy, Debug, PartialEq, Eq)]
pub struct AssociatedTokenAccount;

impl AssociatedTokenAccount {
    pub fn check(
        account: &AccountView,
        authority: &AccountView,
        mint: &AccountView,
        token_program: &AccountView,
    ) -> (r: ProgramResult)
        ensures
            r == ata_check(*account, *authority, *mint, *token_program),
    {
        let derived = derive_program_address(
            authority.address().as_slice(),
            token_program.address().as_slice(),
            mint.address().as_slice(),
            &ASSOCIATED_TOKEN_PROGRAM_ID,
        );
        Self::check_derived(account, derived)
    }

    /// Compares `account`'s address with the result of a derivation: no
    /// address found is `InvalidSeeds`, another address `InvalidAccountData`.
    pub fn check_derived(account: &AccountView, derived: Option<(Address, u8)>) -> (r:
        ProgramResult)
        ensures
            r == derived_address_check(derived, account.address),
    {
        match derived {
            None => Err(ProgramError::InvalidSeeds),
            Some((found, _bump)) => {
                if !address_eq(&found, account.address()) {
                    return Err(ProgramError::InvalidAccountData);
                }
                Ok(())
            },
        }
    }
}

/// An account of this program: the escrow.
#[derive(Clone, Copy, Debug, PartialEq, Eq)]
pub struct ProgramAccount;

impl ProgramAccount {
    pub fn check(account: &AccountView) -> (r: ProgramResult)
        ensures
            r == program_account_check(*account),
    {
        if !account.owned_by(&ID) {
            return Err(ProgramError::InvalidAccountOwner);
        }
        if account.data_len() != Escrow::LEN {
            return Err(ProgramError::InvalidAccountData);
        }
        Ok(())
    }

    /// The call that creates `account`, owned by this program, with `space`
    /// bytes, paid by `payer` with the rent-exempt minimum at
    /// `lamports_per_byte`, and signed with `signer_seeds`. A length or rate
    /// for which the rent cannot be computed is `InvalidArgument`.
    pub fn init(
        payer: &Address,
        account: &Address,
        signer_seeds: Vec<Vec<u8>>,
        space: usize,
        lamports_per_byte: u64,
    ) -> (r: Result<Action, ProgramError>)
        ensures
            match rent_exempt_minimum(lamports_per_byte, space) {
                Some(lamports) => r == Ok::<Action, ProgramError>(
                    Action::CreateAccount {
                        from: *payer,
                        to: *account,
                        lamports,
                        space: space as u64,
                        owner: ID,
                        signer_seeds,
                    },
                ),
                None => r == Err::<Action, ProgramError>(ProgramError::InvalidArgument),
            },
    {
        let lamports: u64 = match minimum_balance(lamports_per_byte, space) {
            Some(lamports) => lamports,
            None => return Err(ProgramError::InvalidArgument),
        };
        Ok(
            Action::CreateAccount {
                from: *payer,
                to: *account,
                lamports,
                space: space as u64,
                owner: ID,
                signer_seeds,
            },
        )
    }

    /// Moves all of `account`'s lamports to `destination` and closes
    /// `account`. Refused, with nothing changed, when the destination's
    /// balance would overflow.
    pub fn close(account: &mut AccountView, destination: &mut AccountView) -> (r: ProgramResult)
        ensures
            match r {
                Ok(()) => closed_into(*old(account), *old(destination), *final(account), *final(destination)),
                Err(e) => {
                    &&& e == ProgramError::ArithmeticOverflow
                    &&& old(destination).lamports + old(account).lamports > u64::MAX
                    &&& *final(destination) == *old(destination)
                    &&& *final(account) == *old(account)
                },
            },
    {
        let destination_lamports: u64 = match destination.lamports().checked_add(account.lamports()) {
            Some(sum) => sum,
            None => return Err(ProgramError::ArithmeticOverflow),
        };
        destination.set_lamports(destination_lamports);
        account.close();
        Ok(())
    }
}

} // verus!
