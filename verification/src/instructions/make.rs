use vstd::prelude::*;
use vstd::bytes::u64_from_le_bytes;

use crate::account::{address_eq, AccountView, Address};
use crate::cpi::{escrow_address_seeds, escrow_signer, escrow_signer_seeds, escrow_tag_bytes, Action};
use crate::error::ProgramError;
use crate::ids::ID;
use crate::instructions::helpers::{
    ata_check, mint_check, signer_check, AssociatedTokenAccount, MintInterface, ProgramAccount,
    SignerAccount,
};
use crate::pda::{derive_program_address, program_address};
use crate::rent::rent_exempt_minimum;
use crate::state::{le_bytes, le_u64, u64_le, Escrow};

verus! {

/// The accounts of `make`, by address:
/// `[maker, escrow, mint_a, mint_b, maker_ata_a, vault, system_program, token_program, _]`.
#[derive(Clone, Copy, Debug, PartialEq, Eq)]
pub struct MakeAccounts {
    pub maker: Address,
    pub escrow: Address,
    pub mint_a: Address,
    pub mint_b: Address,
    pub maker_ata_a: Address,
    pub vault: Address,
    pub system_program: Address,
    pub token_program: Address,
}

/// The outcome of `MakeAccounts::try_from`: exactly nine accounts; the maker
/// signs, both mints are mints, and the fifth account is the maker's
/// associated token account for mint A; the first failing check decides.
pub open spec fn make_accounts_result(accounts: Seq<AccountView>) -> Result<MakeAccounts, ProgramError> {
    if accounts.len() != 9 {
        Err(ProgramError::NotEnoughAccountKeys)
    } else if let Err(e) = signer_check(accounts[0]) {
        Err(e)
    } else if let Err(e) = mint_check(accounts[2]) {
        Err(e)
    } else if let Err(e) = mint_check(accounts[3]) {
        Err(e)
    } else if let Err(e) = ata_check(accounts[4], accounts[0], accounts[2], accounts[7]) {
        Err(e)
    } else {
        Ok(
            MakeAccounts {
                maker: accounts[0].address,
                escrow: accounts[1].address,
                mint_a: accounts[2].address,
                mint_b: accounts[3].address,
                maker_ata_a: accounts[4].address,
                vault: accounts[5].address,
                system_program: accounts[6].address,
                token_program: accounts[7].address,
            },
        )
    }
}

impl MakeAccounts {
    pub fn try_from(accounts: &[AccountView]) -> (r: Result<MakeAccounts, ProgramError>)
        ensures
            r == make_accounts_result(accounts@),
    {
        if accounts.len() != 9 {
            return Err(ProgramError::NotEnoughAccountKeys);
        }
        let maker = &accounts[0];
        let escrow = &accounts[1];
        let mint_a = &accounts[2];
        let mint_b = &accounts[3];
        let maker_ata_a = &accounts[4];
        let vault = &accounts[5];
        let system_program = &accounts[6];
        let token_program = &accounts[7];

        SignerAccount::check(maker)?;
        MintInterface::check(mint_a)?;
        MintInterface::check(mint_b)?;
        AssociatedTokenAccount::check(maker_ata_a, maker, mint_a, token_program)?;

        Ok(
            MakeAccounts {
                maker: maker.address,
                escrow: escrow.address,
                mint_a: mint_a.address,
                mint_b: mint_b.address,
                maker_ata_a: maker_ata_a.address,
                vault: vault.address,
                system_program: system_program.address,
                token_program: token_program.address,
            },
        )
    }
}

/// The instruction data of `make`: three little-endian `u64`s.
#[derive(Clone, Copy, Debug, PartialEq, Eq)]
pub struct MakeInstructionData {
    pub seed: u64,
    pub receive: u64,
    pub amount: u64,
}

/// The outcome of `MakeInstructionData::try_from`: exactly 24 bytes, read
/// as `seed`, `receive`, `amount`; a zero `receive` or `amount` is refused.
pub open spec fn make_data_result(data: Seq<u8>) -> Result<MakeInstructionData, ProgramError> {
    if data.len() != 24 {
        Err(ProgramError::InvalidInstructionData)
    } else {
        let seed: u64 = le_u64(data.subrange(0, 8));
        let receive: u64 = le_u64(data.subrange(8, 16));
        let amount: u64 = le_u64(data.subrange(16, 24));
        if amount == 0 || receive == 0 {
            Err(ProgramError::InvalidInstructionData)
        } else {
            Ok(MakeInstructionData { seed, receive, amount })
        }
    }
}

impl MakeInstructionData {
    /// Length of the instruction data in bytes.
    pub const LEN: usize = 24;

    pub fn try_from(data: &[u8]) -> (r: Result<MakeInstructionData, ProgramError>)
        ensures
            r == make_data_result(data@),
    {
        if data.len() != Self::LEN {
            return Err(ProgramError::InvalidInstructionData);
        }
        let seed: u64 = u64_from_le_bytes(vstd::slice::slice_subrange(data, 0, 8));
        let receive: u64 = u64_from_le_bytes(vstd::slice::slice_subrange(data, 8, 16));
        let amount: u64 = u64_from_le_bytes(vstd::slice::slice_subrange(data, 16, 24));
        if amount == 0 || receive == 0 {
            return Err(ProgramError::InvalidInstructionData);
        }
        Ok(MakeInstructionData { seed, receive, amount })
    }
}

/// A validated `make`: its accounts, its data and the bump of the escrow
/// address.
#[derive(Clone, Copy, Debug, PartialEq, Eq)]
pub struct Make {
    pub accounts: MakeAccounts,
    pub instruction_data: MakeInstructionData,
    pub escrow_bump: [u8; 1],
}

/// The escrow address and bump that `make` derives for its maker and seed.
pub open spec fn escrow_address(maker: Address, seed: u64) -> Option<(Address, u8)> {
    program_address(escrow_address_seeds(maker@, u64_le(seed)), ID@)
}

/// What `Make::from_derived` decides from a derivation: no address is
/// `InvalidSeeds`, an address other than the passed escrow `InvalidArgument`,
/// else the bump.
pub open spec fn escrow_bump_result(escrow: Address, derived: Option<(Address, u8)>) -> Result<
    u8,
    ProgramError,
> {
    match derived {
        None => Err(ProgramError::InvalidSeeds),
        Some((found, bump)) => if found@ == escrow@ {
            Ok(bump)
        } else {
            Err(ProgramError::InvalidArgument)
        },
    }
}

/// The outcome of `Make::try_from`: the accounts are checked first, then the
/// data, then the escrow address; the result carries the checked accounts,
/// the data and the bump.
pub open spec fn make_result(data: Seq<u8>, accounts: Seq<AccountView>) -> Result<
    (MakeAccounts, MakeInstructionData, u8),
    ProgramError,
> {
    match make_accounts_result(accounts) {
        Err(e) => Err(e),
        Ok(acc) => match make_data_result(data) {
            Err(e) => Err(e),
            Ok(ix) => match escrow_bump_result(acc.escrow, escrow_address(acc.maker, ix.seed)) {
                Err(e) => Err(e),
                Ok(bump) => Ok((acc, ix, bump)),
            },
        },
    }
}

/// The calls of `Make::setup` when the escrow's rent-exempt minimum is
/// `rent`: create the escrow, then the vault.
pub open spec fn make_setup_actions(m: Make, rent: u64, actions: Seq<Action>) -> bool {
    &&& actions.len() == 2
    &&& actions[0] matches Action::CreateAccount {
        from,
        to,
        lamports,
        space,
        owner,
        signer_seeds,
    } && from == m.accounts.maker && to == m.accounts.escrow && lamports == rent && space
        == Escrow::LEN && owner == ID && signer_seeds.deep_view() == escrow_signer_seeds(
        m.accounts.maker@,
        u64_le(m.instruction_data.seed),
        m.escrow_bump@,
    )
    &&& actions[1] == (Action::CreateAssociatedTokenAccount {
        funding_account: m.accounts.maker,
        account: m.accounts.vault,
        wallet: m.accounts.escrow,
        mint: m.accounts.mint_a,
        system_program: m.accounts.system_program,
        token_program: m.accounts.token_program,
        idempotent: false,
    })
}

/// The calls of `Make::process`: the deposit of `amount` of mint A from the
/// maker's account to the vault, signed by the maker.
pub open spec fn make_deposit_actions(m: Make, actions: Seq<Action>) -> bool {
    &&& actions.len() == 1
    &&& actions[0] matches Action::Transfer { from, to, authority, amount, signer_seeds }
        && from == m.accounts.maker_ata_a && to == m.accounts.vault && authority
        == m.accounts.maker && amount == m.instruction_data.amount && signer_seeds@.len() == 0
}

/// A `Make` as the parts that `make_result` describes.
pub open spec fn make_outcome(r: Result<Make, ProgramError>) -> Result<
    (MakeAccounts, MakeInstructionData, u8),
    ProgramError,
> {
    match r {
        Ok(m) => Ok((m.accounts, m.instruction_data, m.escrow_bump[0])),
        Err(e) => Err(e),
    }
}

/// The bytes of the escrow record that `make` writes.
pub open spec fn make_record_bytes(m: Make) -> Seq<u8> {
    u64_le(m.instruction_data.seed) + m.accounts.maker@ + m.accounts.mint_a@ + m.accounts.mint_b@
        + u64_le(m.instruction_data.receive) + m.escrow_bump@
}

impl Make {
    /// The instruction's discriminator.
    pub const DISCRIMINATOR: u8 = 0;

    pub fn try_from(data: &[u8], accounts: &[AccountView]) -> (r: Result<Make, ProgramError>)
        ensures
            make_outcome(r) == make_result(data@, accounts@),
    {
        let accounts = MakeAccounts::try_from(accounts)?;
        let instruction_data = MakeInstructionData::try_from(data)?;
        let seed = le_bytes(instruction_data.seed);
        let tag = escrow_tag_bytes();
        let derived = derive_program_address(
            tag.as_slice(),
            accounts.maker.as_slice(),
            seed.as_slice(),
            &ID,
        );
        Self::from_derived(accounts, instruction_data, derived)
    }

    /// Completes `try_from` once the escrow address has been derived: the
    /// passed escrow must be the derived address.
    pub fn from_derived(
        accounts: MakeAccounts,
        instruction_data: MakeInstructionData,
        derived: Option<(Address, u8)>,
    ) -> (r: Result<Make, ProgramError>)
        ensures
            make_outcome(r) == (match escrow_bump_result(accounts.escrow, derived) {
                Ok(bump) => Ok((accounts, instruction_data, bump)),
                Err(e) => Err(e),
            }),
    {
        match derived {
            None => Err(ProgramError::InvalidSeeds),
            Some((found, bump)) => {
                if !address_eq(&found, &accounts.escrow) {
                    return Err(ProgramError::InvalidArgument);
                }
                Ok(Make { accounts, instruction_data, escrow_bump: [bump] })
            },
        }
    }

    /// The calls that follow the checks: create the escrow account (this
    /// program's, `Escrow::LEN` bytes, funded with the rent-exempt minimum at
    /// `lamports_per_byte`, signed by the escrow address), then the vault,
    /// the escrow's associated token account for mint A. A rent rate over its
    /// maximum is `InvalidArgument`.
    pub fn setup(&self, lamports_per_byte: u64) -> (r: Result<Vec<Action>, ProgramError>)
        ensures
            match rent_exempt_minimum(lamports_per_byte, Escrow::LEN) {
                None => r == Err::<Vec<Action>, ProgramError>(ProgramError::InvalidArgument),
                Some(rent) => r matches Ok(actions) && make_setup_actions(*self, rent, actions@),
            },
    {
        let seed = le_bytes(self.instruction_data.seed);
        let signer_seeds = escrow_signer(&self.accounts.maker, &seed, &self.escrow_bump);
        let create_escrow = ProgramAccount::init(
            &self.accounts.maker,
            &self.accounts.escrow,
            signer_seeds,
            Escrow::LEN,
            lamports_per_byte,
        )?;
        let create_vault = Action::CreateAssociatedTokenAccount {
            funding_account: self.accounts.maker,
            account: self.accounts.vault,
            wallet: self.accounts.escrow,
            mint: self.accounts.mint_a,
            system_program: self.accounts.system_program,
            token_program: self.accounts.token_program,
            idempotent: false,
        };
        let mut r: Vec<Action> = Vec::new();
        r.push(create_escrow);
        r.push(create_vault);
        Ok(r)
    }

    /// Writes the escrow record into the escrow's data, which must be
    /// `Escrow::LEN` bytes long (else `InvalidAccountData`, data unchanged),
    /// and returns the deposit: `amount` of mint A from the maker's account to
    /// the vault, signed by the maker.
    pub fn process(&self, escrow_data: &mut Vec<u8>) -> (r: Result<Vec<Action>, ProgramError>)
        ensures
            match r {
                Ok(actions) => {
                    &&& old(escrow_data)@.len() == Escrow::LEN
                    &&& final(escrow_data)@ == make_record_bytes(*self)
                    &&& make_deposit_actions(*self, actions@)
                },
                Err(e) => {
                    &&& old(escrow_data)@.len() != Escrow::LEN
                    &&& e == ProgramError::InvalidAccountData
                    &&& final(escrow_data)@ == old(escrow_data)@
                },
            },
    {
        let mut escrow = Escrow::load(escrow_data.as_slice())?;
        escrow.set_inner(
            self.instruction_data.seed,
            self.accounts.maker,
            self.accounts.mint_a,
            self.accounts.mint_b,
            self.instruction_data.receive,
            self.escrow_bump,
        );
        escrow.store(escrow_data)?;
        assert(escrow.spec_bytes() =~= make_record_bytes(*self));
        let deposit = Action::Transfer {
            from: self.accounts.maker_ata_a,
            to: self.accounts.vault,
            authority: self.accounts.maker,
            amount: self.instruction_data.amount,
            signer_seeds: Vec::new(),
        };
        let mut r: Vec<Action> = Vec::new();
        r.push(deposit);
        Ok(r)
    }
}

} // verus!
