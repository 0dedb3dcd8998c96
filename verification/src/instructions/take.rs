use vstd::prelude::*;

use crate::account::{address_eq, AccountView, Address};
use crate::cpi::{escrow_signer, escrow_signer_seeds, Action};
use crate::error::{ProgramError, ProgramResult};
use crate::instructions::helpers::{
    ata_check, mint_check, program_account_check, signer_check, AssociatedTokenAccount,
    MintInterface, ProgramAccount, SignerAccount,
};
use crate::state::{le_u64, Escrow};

verus! {

/// Bytes of the recorded mint A within the escrow record.
pub open spec fn recorded_mint_a(record: Seq<u8>) -> Seq<u8> {
    record.subrange(40, 72)
}

/// Bytes of the recorded mint B within the escrow record.
pub open spec fn recorded_mint_b(record: Seq<u8>) -> Seq<u8> {
    record.subrange(72, 104)
}

/// The accounts of `take`, by address:
/// `[taker, maker, escrow, mint_a, mint_b, vault, taker_ata_a, taker_ata_b,
/// maker_ata_b, system_program, token_program, _]`, with the escrow record
/// read from the escrow's data.
#[derive(Clone, Copy, Debug, PartialEq, Eq)]
pub struct TakeAccount {
    pub taker: Address,
    pub maker: Address,
    pub escrow: Address,
    pub mint_a: Address,
    pub mint_b: Address,
    pub vault: Address,
    pub taker_ata_a: Address,
    pub taker_ata_b: Address,
    pub maker_ata_b: Address,
    pub system_program: Address,
    pub token_program: Address,
    pub state: Escrow,
}

/// The outcome of `TakeAccount::try_from`: exactly twelve accounts; the
/// taker signs; the escrow is this program's and of the record's length; the
/// passed mints are the ones the record holds; both are mints; the eighth
/// account is the taker's associated token account for mint B and the vault
/// the escrow's for mint A. The first failing check decides.
pub open spec fn take_accounts_check(accounts: Seq<AccountView>) -> ProgramResult {
    if accounts.len() != 12 {
        Err(ProgramError::NotEnoughAccountKeys)
    } else if let Err(e) = signer_check(accounts[0]) {
        Err(e)
    } else if let Err(e) = program_account_check(accounts[2]) {
        Err(e)
    } else if accounts[3].address@ != recorded_mint_a(accounts[2].data@) {
        Err(ProgramError::InvalidAccountData)
    } else if accounts[4].address@ != recorded_mint_b(accounts[2].data@) {
        Err(ProgramError::InvalidAccountData)
    } else if let Err(e) = mint_check(accounts[3]) {
        Err(e)
    } else if let Err(e) = mint_check(accounts[4]) {
        Err(e)
    } else if let Err(e) = ata_check(accounts[7], accounts[0], accounts[4], accounts[10]) {
        Err(e)
    } else if let Err(e) = ata_check(accounts[5], accounts[2], accounts[3], accounts[10]) {
        Err(e)
    } else {
        Ok(())
    }
}

/// `t` holds the addresses of `accounts` in order and the record in the
/// escrow's data.
pub open spec fn take_accounts_of(t: TakeAccount, accounts: Seq<AccountView>) -> bool {
    &&& accounts.len() == 12
    &&& t.taker == accounts[0].address
    &&& t.maker == accounts[1].address
    &&& t.escrow == accounts[2].address
    &&& t.mint_a == accounts[3].address
    &&& t.mint_b == accounts[4].address
    &&& t.vault == accounts[5].address
    &&& t.taker_ata_a == accounts[6].address
    &&& t.taker_ata_b == accounts[7].address
    &&& t.maker_ata_b == accounts[8].address
    &&& t.system_program == accounts[9].address
    &&& t.token_program == accounts[10].address
    &&& t.state.spec_bytes() == accounts[2].data@
}

impl TakeAccount {
    pub fn try_from(accounts: &[AccountView]) -> (r: Result<TakeAccount, ProgramError>)
        ensures
            match r {
                Ok(t) => take_accounts_check(accounts@) == Ok::<(), ProgramError>(())
                    && take_accounts_of(t, accounts@),
                Err(e) => take_accounts_check(accounts@) == Err::<(), ProgramError>(e),
            },
    {
        if accounts.len() != 12 {
            return Err(ProgramError::NotEnoughAccountKeys);
        }
        let taker = &accounts[0];
        let maker = &accounts[1];
        let escrow = &accounts[2];
        let mint_a = &accounts[3];
        let mint_b = &accounts[4];
        let vault = &accounts[5];
        let taker_ata_a = &accounts[6];
        let taker_ata_b = &accounts[7];
        let maker_ata_b = &accounts[8];
        let system_program = &accounts[9];
        let token_program = &accounts[10];

        SignerAccount::check(taker)?;
        ProgramAccount::check(escrow)?;
        let state = Escrow::load(escrow.data.as_slice())?;
        proof {
            assert(state.mint_a@ =~= recorded_mint_a(escrow.data@));
            assert(state.mint_b@ =~= recorded_mint_b(escrow.data@));
        }
        if !address_eq(mint_a.address(), &state.mint_a) {
            return Err(ProgramError::InvalidAccountData);
        }
        if !address_eq(mint_b.address(), &state.mint_b) {
            return Err(ProgramError::InvalidAccountData);
        }
        MintInterface::check(mint_a)?;
        MintInterface::check(mint_b)?;
        AssociatedTokenAccount::check(taker_ata_b, taker, mint_b, token_program)?;
        AssociatedTokenAccount::check(vault, escrow, mint_a, token_program)?;

        Ok(
            TakeAccount {
                taker: taker.address,
                maker: maker.address,
                escrow: escrow.address,
                mint_a: mint_a.address,
                mint_b: mint_b.address,
                vault: vault.address,
                taker_ata_a: taker_ata_a.address,
                taker_ata_b: taker_ata_b.address,
                maker_ata_b: maker_ata_b.address,
                system_program: system_program.address,
                token_program: token_program.address,
                state,
            },
        )
    }
}

/// The calls of `Take::setup`.
pub open spec fn take_setup_actions(t: Take) -> Seq<Action> {
    seq![
        Action::CreateAssociatedTokenAccount {
            funding_account: t.accounts.taker,
            account: t.accounts.taker_ata_a,
            wallet: t.accounts.taker,
            mint: t.accounts.mint_a,
            system_program: t.accounts.system_program,
            token_program: t.accounts.token_program,
            idempotent: true,
        },
        Action::CreateAssociatedTokenAccount {
            funding_account: t.accounts.taker,
            account: t.accounts.maker_ata_b,
            wallet: t.accounts.maker,
            mint: t.accounts.mint_b,
            system_program: t.accounts.system_program,
            token_program: t.accounts.token_program,
            idempotent: true,
        },
    ]
}

/// The calls of `Take::process` for the vault balance `vault_amount`.
pub open spec fn take_process_actions(t: Take, vault_amount: u64, r: Seq<Action>) -> bool {
    &&& r.len() == 4
    &&& r[0] matches Action::Transfer { from, to, authority, amount, signer_seeds } && from
                == t.accounts.taker_ata_b && to == t.accounts.maker_ata_b && authority
                == t.accounts.taker && amount == le_u64(t.accounts.state.receive@)
                && signer_seeds@.len() == 0
    &&& r[1] matches Action::Transfer { from, to, authority, amount, signer_seeds } && from
                == t.accounts.vault && to == t.accounts.taker_ata_a && authority
                == t.accounts.escrow && amount == vault_amount && signer_seeds.deep_view()
                == escrow_signer_seeds(
                t.accounts.maker@,
                t.accounts.state.seed@,
                t.accounts.state.bump@,
            )
    &&& r[2] matches Action::CloseTokenAccount { account, destination, authority, signer_seeds }
                && account == t.accounts.vault && destination == t.accounts.maker
                && authority == t.accounts.escrow && signer_seeds.deep_view()
                == escrow_signer_seeds(
                t.accounts.maker@,
                t.accounts.state.seed@,
                t.accounts.state.bump@,
            )
    &&& r[3] == (Action::CloseProgramAccount {
                account: t.accounts.escrow,
                destination: t.accounts.maker,
            })
}

/// A validated `take`.
#[derive(Clone, Copy, Debug, PartialEq, Eq)]
pub struct Take {
    pub accounts: TakeAccount,
}

impl Take {
    /// The instruction's discriminator.
    pub const DISCRIMINATOR: u8 = 1;

    pub fn try_from(accounts: &[AccountView]) -> (r: Result<Take, ProgramError>)
        ensures
            match r {
                Ok(t) => take_accounts_check(accounts@) == Ok::<(), ProgramError>(())
                    && take_accounts_of(t.accounts, accounts@),
                Err(e) => take_accounts_check(accounts@) == Err::<(), ProgramError>(e),
            },
    {
        let accounts = TakeAccount::try_from(accounts)?;
        Ok(Take { accounts })
    }

    /// The calls that follow the checks: create, if missing, the taker's
    /// associated token account for mint A and the maker's for mint B, both
    /// paid by the taker.
    pub fn setup(&self) -> (r: Vec<Action>)
        ensures
            r@ == take_setup_actions(*self),
    {
        let mut r: Vec<Action> = Vec::new();
        r.push(
            Action::CreateAssociatedTokenAccount {
                funding_account: self.accounts.taker,
                account: self.accounts.taker_ata_a,
                wallet: self.accounts.taker,
                mint: self.accounts.mint_a,
                system_program: self.accounts.system_program,
                token_program: self.accounts.token_program,
                idempotent: true,
            },
        );
        r.push(
            Action::CreateAssociatedTokenAccount {
                funding_account: self.accounts.taker,
                account: self.accounts.maker_ata_b,
                wallet: self.accounts.maker,
                mint: self.accounts.mint_b,
                system_program: self.accounts.system_program,
                token_program: self.accounts.token_program,
                idempotent: true,
            },
        );
        r
    }

    /// The swap, given the vault's token balance: the taker pays the
    /// recorded `receive` of mint B to the maker; the whole vault goes to the
    /// taker; the vault is closed to the maker; the escrow is closed to the
    /// maker. The escrow address signs with `["escrow", maker, seed, bump]`,
    /// seed and bump as recorded.
    pub fn process(&self, vault_amount: u64) -> (r: Vec<Action>)
        ensures
            take_process_actions(*self, vault_amount, r@),
    {
        let state = &self.accounts.state;
        let receive: u64 = state.receive();
        let mut r: Vec<Action> = Vec::new();
        r.push(
            Action::Transfer {
                from: self.accounts.taker_ata_b,
                to: self.accounts.maker_ata_b,
                authority: self.accounts.taker,
                amount: receive,
                signer_seeds: Vec::new(),
            },
        );
        r.push(
            Action::Transfer {
                from: self.accounts.vault,
                to: self.accounts.taker_ata_a,
                authority: self.accounts.escrow,
                amount: vault_amount,
                signer_seeds: escrow_signer(&self.accounts.maker, &state.seed, &state.bump),
            },
        );
        r.push(
            Action::CloseTokenAccount {
                account: self.accounts.vault,
                destination: self.accounts.maker,
                authority: self.accounts.escrow,
                signer_seeds: escrow_signer(&self.accounts.maker, &state.seed, &state.bump),
            },
        );
        r.push(
            Action::CloseProgramAccount {
                account: self.accounts.escrow,
                destination: self.accounts.maker,
            },
        );
        r
    }
}

} // verus!
