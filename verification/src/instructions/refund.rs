use vstd::prelude::*;

use crate::account::{address_eq, AccountView, Address};
use crate::cpi::{escrow_signer, escrow_signer_seeds, Action};
use crate::error::{ProgramError, ProgramResult};
use crate::instructions::helpers::{
    ata_check, mint_check, program_account_check, signer_check, AssociatedTokenAccount,
    MintInterface, ProgramAccount, SignerAccount,
};
use crate::instructions::take::recorded_mint_a;
use crate::state::Escrow;

verus! {

/// The accounts of `refund`, by address:
/// `[maker, escrow, mint_a, vault, maker_ata_a, system_program, token_program, _]`,
/// with the escrow record read from the escrow's data.
#[derive(Clone, Copy, Debug, PartialEq, Eq)]
pub struct RefundAccounts {
    pub maker: Address,
    pub escrow: Address,
    pub mint_a: Address,
    pub vault: Address,
    pub maker_ata_a: Address,
    pub system_program: Address,
    pub token_program: Address,
    pub state: Escrow,
}

/// The outcome of `RefundAccounts::try_from`: exactly eight accounts; the
/// maker signs; the escrow is this program's and of the record's length; the
/// passed mint A is the one the record holds and is a mint; the fifth account
/// is the maker's associated token account for mint A and the vault the
/// escrow's. The first failing check decides.
pub open spec fn refund_accounts_check(accounts: Seq<AccountView>) -> ProgramResult {
    if accounts.len() != 8 {
        Err(ProgramError::NotEnoughAccountKeys)
    } else if let Err(e) = signer_check(accounts[0]) {
        Err(e)
    } else if let Err(e) = program_account_check(accounts[1]) {
        Err(e)
    } else if accounts[2].address@ != recorded_mint_a(accounts[1].data@) {
        Err(ProgramError::InvalidAccountData)
    } else if let Err(e) = mint_check(accounts[2]) {
        Err(e)
    } else if let Err(e) = ata_check(accounts[4], accounts[0], accounts[2], accounts[6]) {
        Err(e)
    } else if let Err(e) = ata_check(accounts[3], accounts[1], accounts[2], accounts[6]) {
        Err(e)
    } else {
        Ok(())
    }
}

/// `r` holds the addresses of `accounts` in order and the record in the
/// escrow's data.
pub open spec fn refund_accounts_of(r: RefundAccounts, accounts: Seq<AccountView>) -> bool {
    &&& accounts.len() == 8
    &&& r.maker == accounts[0].address
    &&& r.escrow == accounts[1].address
    &&& r.mint_a == accounts[2].address
    &&& r.vault == accounts[3].address
    &&& r.maker_ata_a == accounts[4].address
    &&& r.system_program == accounts[5].address
    &&& r.token_program == accounts[6].address
    &&& r.state.spec_bytes() == accounts[1].data@
}

impl RefundAccounts {
    pub fn try_from(accounts: &[AccountView]) -> (r: Result<RefundAccounts, ProgramError>)
        ensures
            match r {
                Ok(ra) => refund_accounts_check(accounts@) == Ok::<(), ProgramError>(())
                    && refund_accounts_of(ra, accounts@),
                Err(e) => refund_accounts_check(accounts@) == Err::<(), ProgramError>(e),
            },
    {
        if accounts.len() != 8 {
            return Err(ProgramError::NotEnoughAccountKeys);
        }
        let maker = &accounts[0];
        let escrow = &accounts[1];
        let mint_a = &accounts[2];
        let vault = &accounts[3];
        let maker_ata_a = &accounts[4];
        let system_program = &accounts[5];
        let token_program = &accounts[6];

        SignerAccount::check(maker)?;
        ProgramAccount::check(escrow)?;
        let state = Escrow::load(escrow.data.as_slice())?;
        proof {
            assert(state.mint_a@ =~= recorded_mint_a(escrow.data@));
        }
        if !address_eq(mint_a.address(), &state.mint_a) {
            return Err(ProgramError::InvalidAccountData);
        }
        MintInterface::check(mint_a)?;
        AssociatedTokenAccount::check(maker_ata_a, maker, mint_a, token_program)?;
        AssociatedTokenAccount::check(vault, escrow, mint_a, token_program)?;

        Ok(
            RefundAccounts {
                maker: maker.address,
                escrow: escrow.address,
                mint_a: mint_a.address,
                vault: vault.address,
                maker_ata_a: maker_ata_a.address,
                system_program: system_program.address,
                token_program: token_program.address,
                state,
            },
        )
    }
}

/// The calls of `Refund::setup`.
pub open spec fn refund_setup_actions(rf: Refund) -> Seq<Action> {
    seq![
        Action::CreateAssociatedTokenAccount {
            funding_account: rf.accounts.maker,
            account: rf.accounts.maker_ata_a,
            wallet: rf.accounts.maker,
            mint: rf.accounts.mint_a,
            system_program: rf.accounts.system_program,
            token_program: rf.accounts.token_program,
            idempotent: true,
        },
    ]
}

/// The calls of `Refund::process` for the vault balance `vault_amount`.
pub open spec fn refund_process_actions(rf: Refund, vault_amount: u64, r: Seq<Action>) -> bool {
    &&& r.len() == 3
    &&& r[0] matches Action::Transfer { from, to, authority, amount, signer_seeds } && from
                == rf.accounts.vault && to == rf.accounts.maker_ata_a && authority
                == rf.accounts.escrow && amount == vault_amount && signer_seeds.deep_view()
                == escrow_signer_seeds(
                rf.accounts.maker@,
                rf.accounts.state.seed@,
                rf.accounts.state.bump@,
            )
    &&& r[1] matches Action::CloseTokenAccount { account, destination, authority, signer_seeds }
                && account == rf.accounts.vault && destination == rf.accounts.maker
                && authority == rf.accounts.escrow && signer_seeds.deep_view()
                == escrow_signer_seeds(
                rf.accounts.maker@,
                rf.accounts.state.seed@,
                rf.accounts.state.bump@,
            )
    &&& r[2] == (Action::CloseProgramAccount {
                account: rf.accounts.escrow,
                destination: rf.accounts.maker,
            })
}

/// A validated `refund`.
#[derive(Clone, Copy, Debug, PartialEq, Eq)]
pub struct Refund {
    pub accounts: RefundAccounts,
}

impl Refund {
    /// The instruction's discriminator.
    pub const DISCRIMINATOR: u8 = 2;

    pub fn try_from(accounts: &[AccountView]) -> (r: Result<Refund, ProgramError>)
        ensures
            match r {
                Ok(rf) => refund_accounts_check(accounts@) == Ok::<(), ProgramError>(())
                    && refund_accounts_of(rf.accounts, accounts@),
                Err(e) => refund_accounts_check(accounts@) == Err::<(), ProgramError>(e),
            },
    {
        let accounts = RefundAccounts::try_from(accounts)?;
        Ok(Refund { accounts })
    }

    /// The call that follows the checks: create, if missing, the maker's
    /// associated token account for mint A, paid by the maker.
    pub fn setup(&self) -> (r: Vec<Action>)
        ensures
            r@ == refund_setup_actions(*self),
    {
        let mut r: Vec<Action> = Vec::new();
        r.push(
            Action::CreateAssociatedTokenAccount {
                funding_account: self.accounts.maker,
                account: self.accounts.maker_ata_a,
                wallet: self.accounts.maker,
                mint: self.accounts.mint_a,
                system_program: self.accounts.system_program,
                token_program: self.accounts.token_program,
                idempotent: true,
            },
        );
        r
    }

    /// The refund, given the vault's token balance: the whole vault goes back
    /// to the maker's account for mint A; the vault is closed to the maker;
    /// the escrow is closed to the maker. The escrow address signs with
    /// `["escrow", maker, seed, bump]`, seed and bump as recorded.
    pub fn process(&self, vault_amount: u64) -> (r: Vec<Action>)
        ensures
            refund_process_actions(*self, vault_amount, r@),
    {
        let state = &self.accounts.state;
        let mut r: Vec<Action> = Vec::new();
        r.push(
            Action::Transfer {
                from: self.accounts.vault,
                to: self.accounts.maker_ata_a,
                authority: self.accounts.escrow,
                amount: vault_amount,
                signer_seeds: escrow_signer(&self.accounts.maker, &state.seed, &state.bump),
            },
        );
        r.push(
            Action::CloseTokenAccount {
                account: self.accounts.vault,
                destination: self.accounts.maker,
                authority: self.accounts.escrow,
                signer_seeds: escrow_signer(&self.accounts.maker, &state.seed, &state.bump),
            },
        );
        r.push(
            Action::CloseProgramAccount {
                account: self.accounts.escrow,
                destination: self.accounts.maker,
            },
        );
        r
    }
}

} // verus!
