use vstd::prelude::*;
use vstd::bytes::{spec_u64_from_le_bytes, spec_u64_to_le_bytes};

use crate::account::AccountView;
use crate::cpi::Action;
use crate::error::ProgramError;
use crate::ids::{ASSOCIATED_TOKEN_PROGRAM_ID, ID, TOKEN_2022_PROGRAM_ID, TOKEN_PROGRAM_ID};
use crate::instructions::helpers::{
    ata_check, closed_into, mint_check, program_account_check, signer_check,
};
use crate::instructions::make::{
    make_data_result, make_deposit_actions, make_outcome, make_record_bytes, make_result,
    make_setup_actions, Make,
};
use crate::instructions::refund::{
    refund_accounts_check, refund_accounts_of, refund_process_actions, refund_setup_actions, Refund,
};
use crate::instructions::take::{
    take_accounts_check, take_accounts_of, take_process_actions, take_setup_actions, Take,
};
use crate::pda::program_address;
use crate::processor::{instruction_of, EscrowInstruction};
use crate::rent::rent_exempt_minimum;
use crate::state::{le_u64, u64_le, Escrow};

verus! {

/// The bytes `"escrow"`, written out.
pub open spec fn tag() -> Seq<u8> {
    seq![101u8, 115u8, 99u8, 114u8, 111u8, 119u8]
}

/// `account` is a mint by owner and length: an SPL Token account of exactly
/// 82 bytes, or a Token-2022 account of at least 82.
pub open spec fn is_mint(account: AccountView) -> bool {
    ||| account.owner@ == TOKEN_PROGRAM_ID@ && account.data@.len() == 82
    ||| account.owner@ == TOKEN_2022_PROGRAM_ID@ && account.data@.len() >= 82
}

/// `account` sits at the associated token address of `wallet` for `mint`
/// under `token_program`.
pub open spec fn is_ata(
    account: AccountView,
    wallet: AccountView,
    mint: AccountView,
    token_program: AccountView,
) -> bool {
    program_address(
        seq![wallet.address@, token_program.address@, mint.address@],
        ASSOCIATED_TOKEN_PROGRAM_ID@,
    ) matches Some((found, _bump)) && found@ == account.address@
}

proof fn lemma_token_ids_differ()
    ensures
        TOKEN_PROGRAM_ID@ != TOKEN_2022_PROGRAM_ID@,
{
    assert(TOKEN_PROGRAM_ID@[4] != TOKEN_2022_PROGRAM_ID@[4]);
}

/// A signature check passes exactly for accounts that signed, and refuses
/// the others with `MissingRequiredSignature`.
pub proof fn lemma_signer_check_is_signature(account: AccountView)
    ensures
        signer_check(account) is Ok <==> account.is_signer,
        !account.is_signer ==> signer_check(account) == Err::<(), ProgramError>(
            ProgramError::MissingRequiredSignature,
        ),
{
}

/// A mint passes exactly when its owner and length make it one, whatever
/// else it holds: accounts with the same owner and data length get the same
/// answer, so a read-only, unsigned mint is as good as any.
pub proof fn lemma_mint_check_by_owner_and_length(a: AccountView, b: AccountView)
    ensures
        mint_check(a) is Ok <==> is_mint(a),
        a.owner == b.owner && a.data@.len() == b.data@.len() ==> mint_check(a) == mint_check(b),
        a.owner@ != TOKEN_PROGRAM_ID@ && a.owner@ != TOKEN_2022_PROGRAM_ID@ ==> mint_check(a)
            == Err::<(), ProgramError>(ProgramError::InvalidAccountOwner),
        (a.owner@ == TOKEN_PROGRAM_ID@ || a.owner@ == TOKEN_2022_PROGRAM_ID@) && !is_mint(a)
            ==> mint_check(a) == Err::<(), ProgramError>(ProgramError::InvalidAccountData),
{
    lemma_token_ids_differ();
}

/// The escrow check passes exactly for this program's accounts of the
/// record's 113 bytes.
pub proof fn lemma_program_account_check_by_owner_and_length(a: AccountView)
    ensures
        program_account_check(a) is Ok <==> a.owner@ == ID@ && a.data@.len() == 113,
        a.owner@ != ID@ ==> program_account_check(a) == Err::<(), ProgramError>(
            ProgramError::InvalidAccountOwner,
        ),
        a.owner@ == ID@ && a.data@.len() != 113 ==> program_account_check(a) == Err::<
            (),
            ProgramError,
        >(ProgramError::InvalidAccountData),
{
}

/// The associated-token-account check passes exactly when the account sits
/// at the address derived from wallet, token program and mint.
pub proof fn lemma_ata_check_is_derivation(
    account: AccountView,
    wallet: AccountView,
    mint: AccountView,
    token_program: AccountView,
)
    ensures
        ata_check(account, wallet, mint, token_program) is Ok <==> is_ata(
            account,
            wallet,
            mint,
            token_program,
        ),
        program_address(
            seq![wallet.address@, token_program.address@, mint.address@],
            ASSOCIATED_TOKEN_PROGRAM_ID@,
        ) is None ==> ata_check(account, wallet, mint, token_program) == Err::<(), ProgramError>(
            ProgramError::InvalidSeeds,
        ),
        program_address(
            seq![wallet.address@, token_program.address@, mint.address@],
            ASSOCIATED_TOKEN_PROGRAM_ID@,
        ) is Some && !is_ata(account, wallet, mint, token_program) ==> ata_check(
            account,
            wallet,
            mint,
            token_program,
        ) == Err::<(), ProgramError>(ProgramError::InvalidAccountData),
{
}

/// `make` accepts only the escrow at the program address of
/// `["escrow", maker, the eight seed bytes of the data]`, for every seed, and
/// keeps that derivation's bump; the seed it keeps is the little-endian value
/// of those eight bytes.
pub proof fn lemma_make_escrow_address(data: Seq<u8>, accounts: Seq<AccountView>)
    requires
        make_result(data, accounts) is Ok,
    ensures
        data.len() == 24,
        accounts.len() == 9,
        ({
            let (acc, ix, bump) = make_result(data, accounts)->Ok_0;
            &&& acc.maker == accounts[0].address
            &&& acc.escrow == accounts[1].address
            &&& ix.seed == spec_u64_from_le_bytes(data.subrange(0, 8))
            &&& spec_u64_to_le_bytes(ix.seed) == data.subrange(0, 8)
            &&& program_address(seq![tag(), accounts[0].address@, data.subrange(0, 8)], ID@)
                == Some((accounts[1].address, bump))
        }),
{
    vstd::bytes::lemma_auto_spec_u64_to_from_le_bytes();
    let (acc, ix, bump) = make_result(data, accounts)->Ok_0;
    assert(crate::cpi::escrow_tag() =~= tag());
    let s = data.subrange(0, 8);
    assert(spec_u64_to_le_bytes(spec_u64_from_le_bytes(s)) == s);
    let d = program_address(seq![tag(), accounts[0].address@, s], ID@);
    assert(seq![crate::cpi::escrow_tag(), acc.maker@, crate::state::u64_le(ix.seed)] =~= seq![
        tag(),
        accounts[0].address@,
        s,
    ]);
    assert(d matches Some((found, b)) && found@ == acc.escrow@ && b == bump);
    let (found, b) = d->Some_0;
    assert(found@ =~= accounts[1].address@);
    assert(found == accounts[1].address);
}

/// `make` goes ahead on every well-formed request: nine accounts, a signing
/// maker, two mints, the maker's token account for mint A, 24 bytes of data
/// with non-zero amounts, and an escrow at the address derived from the
/// maker and the eight seed bytes.
pub proof fn lemma_make_accepts(data: Seq<u8>, accounts: Seq<AccountView>, bump: u8)
    requires
        accounts.len() == 9,
        accounts[0].is_signer,
        is_mint(accounts[2]),
        is_mint(accounts[3]),
        is_ata(accounts[4], accounts[0], accounts[2], accounts[7]),
        data.len() == 24,
        spec_u64_from_le_bytes(data.subrange(8, 16)) != 0,
        spec_u64_from_le_bytes(data.subrange(16, 24)) != 0,
        program_address(seq![tag(), accounts[0].address@, data.subrange(0, 8)], ID@) == Some(
            (accounts[1].address, bump),
        ),
    ensures
        make_result(data, accounts) matches Ok((_acc, _ix, b)) && b == bump,
{
    vstd::bytes::lemma_auto_spec_u64_to_from_le_bytes();
    lemma_token_ids_differ();
    let s = data.subrange(0, 8);
    assert(spec_u64_to_le_bytes(spec_u64_from_le_bytes(s)) == s);
    assert(crate::cpi::escrow_tag() =~= tag());
    assert(seq![crate::cpi::escrow_tag(), accounts[0].address@, crate::state::u64_le(spec_u64_from_le_bytes(s))] =~= seq![
        tag(),
        accounts[0].address@,
        s,
    ]);
}

/// The escrow `make` creates is signed for by the seeds of its own address:
/// the `CreateAccount` that `setup` returns creates the passed escrow and
/// signs with `["escrow", maker, the eight seed bytes of the data, bump]`,
/// whose first three derive exactly that escrow with exactly that bump.
pub proof fn lemma_make_signs_for_its_escrow(
    data: Seq<u8>,
    accounts: Seq<AccountView>,
    m: Make,
    rent: u64,
    actions: Seq<Action>,
)
    requires
        make_outcome(Ok(m)) == make_result(data, accounts),
        make_setup_actions(m, rent, actions),
    ensures
        actions.len() == 2,
        actions[0] matches Action::CreateAccount { to, signer_seeds, .. } && to
            == accounts[1].address && signer_seeds.deep_view() == seq![
            tag(),
            accounts[0].address@,
            data.subrange(0, 8),
            seq![m.escrow_bump[0]],
        ] && program_address(signer_seeds.deep_view().take(3), ID@) == Some(
            (to, m.escrow_bump[0]),
        ),
{
    lemma_make_escrow_address(data, accounts);
    lemma_make_seeds(m, rent, actions);
    vstd::bytes::lemma_auto_spec_u64_to_from_le_bytes();
    let s = data.subrange(0, 8);
    assert(m.escrow_bump@ =~= seq![m.escrow_bump[0]]);
    if let Action::CreateAccount { to, signer_seeds, .. } = actions[0] {
        assert(signer_seeds.deep_view() =~= seq![tag(), accounts[0].address@, s, seq![m.escrow_bump[0]]]);
        assert(signer_seeds.deep_view().take(3) =~= seq![tag(), accounts[0].address@, s]);
    }
}

/// Whatever the request, `setup` signs the escrow's creation with
/// `["escrow", maker, the eight little-endian bytes of the seed, bump]`.
pub proof fn lemma_make_seeds(m: Make, rent: u64, actions: Seq<Action>)
    requires
        make_setup_actions(m, rent, actions),
    ensures
        actions[0] matches Action::CreateAccount { from, to, signer_seeds, .. } && from
            == m.accounts.maker && to == m.accounts.escrow && signer_seeds.deep_view() == seq![
            tag(),
            m.accounts.maker@,
            spec_u64_to_le_bytes(m.instruction_data.seed),
            m.escrow_bump@,
        ],
{
    assert(crate::cpi::escrow_tag() =~= tag());
}

/// `take` goes ahead exactly on a well-formed swap: twelve accounts, a
/// signing taker, this program's 113-byte escrow record, the passed mints
/// being the recorded ones (bytes 40..72 and 72..104) and mints, the taker's
/// mint-B account and the vault at their derived addresses. Nothing is asked
/// of the maker, of the taker's mint-A account or of the maker's mint-B
/// account (created if missing), nor of the system program.
pub proof fn lemma_take_accepts_exactly(accounts: Seq<AccountView>)
    requires
        accounts.len() == 12,
    ensures
        take_accounts_check(accounts) is Ok <==> {
            &&& accounts[0].is_signer
            &&& accounts[2].owner@ == ID@
            &&& accounts[2].data@.len() == 113
            &&& accounts[3].address@ == accounts[2].data@.subrange(40, 72)
            &&& accounts[4].address@ == accounts[2].data@.subrange(72, 104)
            &&& is_mint(accounts[3])
            &&& is_mint(accounts[4])
            &&& is_ata(accounts[7], accounts[0], accounts[4], accounts[10])
            &&& is_ata(accounts[5], accounts[2], accounts[3], accounts[10])
        },
{
    lemma_token_ids_differ();
}

/// `take`'s answer does not depend on the accounts it creates or only passes
/// on: changing the maker, the taker's mint-A account, the maker's mint-B
/// account or the system program in anything but position leaves it as it
/// was.
pub proof fn lemma_take_ignores_created_accounts(a: Seq<AccountView>, b: Seq<AccountView>)
    requires
        a.len() == 12,
        b.len() == 12,
        forall|i: int| 0 <= i < 12 && i != 1 && i != 6 && i != 8 && i != 9 ==> a[i] == b[i],
    ensures
        take_accounts_check(a) == take_accounts_check(b),
{
}

/// `refund` goes ahead exactly on a well-formed refund: eight accounts, a
/// signing maker, this program's 113-byte escrow record, the passed mint A
/// being the recorded one (bytes 40..72) and a mint, the maker's mint-A
/// account and the vault at their derived addresses. Nothing is asked of the
/// maker's mint-A account beyond its address (it is created if missing).
pub proof fn lemma_refund_accepts_exactly(accounts: Seq<AccountView>)
    requires
        accounts.len() == 8,
    ensures
        refund_accounts_check(accounts) is Ok <==> {
            &&& accounts[0].is_signer
            &&& accounts[1].owner@ == ID@
            &&& accounts[1].data@.len() == 113
            &&& accounts[2].address@ == accounts[1].data@.subrange(40, 72)
            &&& is_mint(accounts[2])
            &&& is_ata(accounts[4], accounts[0], accounts[2], accounts[6])
            &&& is_ata(accounts[3], accounts[1], accounts[2], accounts[6])
        },
{
    lemma_token_ids_differ();
}

/// `refund`'s answer depends on the maker's mint-A account only through its
/// address, and not at all on the system program.
pub proof fn lemma_refund_ignores_created_account(a: Seq<AccountView>, b: Seq<AccountView>)
    requires
        a.len() == 8,
        b.len() == 8,
        forall|i: int| 0 <= i < 8 && i != 4 && i != 5 ==> a[i] == b[i],
        a[4].address == b[4].address,
    ensures
        refund_accounts_check(a) == refund_accounts_check(b),
{
}

/// The number of accounts each instruction takes is exact: any other count
/// is `NotEnoughAccountKeys`.
pub proof fn lemma_account_counts(data: Seq<u8>, accounts: Seq<AccountView>)
    ensures
        accounts.len() != 12 ==> take_accounts_check(accounts) == Err::<(), ProgramError>(
            ProgramError::NotEnoughAccountKeys,
        ),
        accounts.len() != 8 ==> refund_accounts_check(accounts) == Err::<(), ProgramError>(
            ProgramError::NotEnoughAccountKeys,
        ),
        accounts.len() != 9 ==> (make_result(data, accounts) matches Err(e) && e
            == ProgramError::NotEnoughAccountKeys),
{
}

/// The record's little-endian fields mean what vstd's little-endian
/// conversions mean.
pub proof fn lemma_le_is_standard(bytes: Seq<u8>, x: u64)
    ensures
        le_u64(bytes) == spec_u64_from_le_bytes(bytes),
        u64_le(x) == spec_u64_to_le_bytes(x),
        bytes.len() == 8 ==> u64_le(le_u64(bytes)) == bytes,
{
    vstd::bytes::lemma_auto_spec_u64_to_from_le_bytes();
}

/// The record is 113 bytes, each field at its offset: seed at 0, maker at
/// 8, mint A at 40, mint B at 72, receive at 104, bump at 112.
pub proof fn lemma_record_layout(e: Escrow)
    ensures
        e.spec_bytes().len() == 113,
        e.spec_bytes().subrange(0, 8) == e.seed@,
        e.spec_bytes().subrange(8, 40) == e.maker@,
        e.spec_bytes().subrange(40, 72) == e.mint_a@,
        e.spec_bytes().subrange(72, 104) == e.mint_b@,
        e.spec_bytes().subrange(104, 112) == e.receive@,
        e.spec_bytes().subrange(112, 113) == e.bump@,
{
    let b = e.spec_bytes();
    assert(b.subrange(0, 8) =~= e.seed@);
    assert(b.subrange(8, 40) =~= e.maker@);
    assert(b.subrange(40, 72) =~= e.mint_a@);
    assert(b.subrange(72, 104) =~= e.mint_b@);
    assert(b.subrange(104, 112) =~= e.receive@);
    assert(b.subrange(112, 113) =~= e.bump@);
}

/// Closing moves every lamport and loses none: the two balances add up to
/// what they did, the closed account holds nothing, and the destination
/// never loses.
pub proof fn lemma_close_conserves_lamports(
    account: AccountView,
    destination: AccountView,
    new_account: AccountView,
    new_destination: AccountView,
)
    requires
        closed_into(account, destination, new_account, new_destination),
    ensures
        new_account.lamports + new_destination.lamports == account.lamports
            + destination.lamports,
        new_account.lamports == 0,
        new_account.data@.len() == 0,
        new_destination.lamports >= destination.lamports,
        new_account.owner@ == seq![0u8, 0u8, 0u8, 0u8, 0u8, 0u8, 0u8, 0u8, 0u8, 0u8, 0u8, 0u8, 0u8, 0u8, 0u8, 0u8, 0u8, 0u8, 0u8, 0u8, 0u8, 0u8, 0u8, 0u8, 0u8, 0u8, 0u8, 0u8, 0u8, 0u8, 0u8, 0u8],
{
    assert(new_account.owner@ =~= seq![0u8, 0u8, 0u8, 0u8, 0u8, 0u8, 0u8, 0u8, 0u8, 0u8, 0u8, 0u8, 0u8, 0u8, 0u8, 0u8, 0u8, 0u8, 0u8, 0u8, 0u8, 0u8, 0u8, 0u8, 0u8, 0u8, 0u8, 0u8, 0u8, 0u8, 0u8, 0u8]);
}

/// `make`'s data is accepted exactly when it is 24 bytes whose second and
/// third little-endian words are non-zero; the three words are seed,
/// receive and amount, in that order.
pub proof fn lemma_make_data_exactly(data: Seq<u8>)
    ensures
        make_data_result(data) is Ok <==> data.len() == 24 && spec_u64_from_le_bytes(
            data.subrange(8, 16),
        ) != 0 && spec_u64_from_le_bytes(data.subrange(16, 24)) != 0,
        make_data_result(data) matches Ok(ix) ==> ix.seed == spec_u64_from_le_bytes(
            data.subrange(0, 8),
        ) && ix.receive == spec_u64_from_le_bytes(data.subrange(8, 16)) && ix.amount
            == spec_u64_from_le_bytes(data.subrange(16, 24)),
        make_data_result(data) is Err ==> make_data_result(data) == Err::<
            crate::instructions::make::MakeInstructionData,
            ProgramError,
        >(ProgramError::InvalidInstructionData),
{
}

/// What `make` keeps of its request: the accounts in order and the three
/// words of its data.
pub proof fn lemma_make_parts(data: Seq<u8>, accounts: Seq<AccountView>)
    requires
        make_result(data, accounts) is Ok,
    ensures
        ({
            let (acc, ix, _bump) = make_result(data, accounts)->Ok_0;
            &&& acc.maker == accounts[0].address
            &&& acc.escrow == accounts[1].address
            &&& acc.mint_a == accounts[2].address
            &&& acc.mint_b == accounts[3].address
            &&& acc.maker_ata_a == accounts[4].address
            &&& acc.vault == accounts[5].address
            &&& acc.system_program == accounts[6].address
            &&& acc.token_program == accounts[7].address
            &&& ix.seed == spec_u64_from_le_bytes(data.subrange(0, 8))
            &&& ix.receive == spec_u64_from_le_bytes(data.subrange(8, 16))
            &&& ix.amount == spec_u64_from_le_bytes(data.subrange(16, 24))
        }),
{
}

/// The record `make` writes holds its request: the seed bytes and the
/// receive bytes of the data, the maker, the two mints and the bump; and the
/// deposit moves the data's amount from the maker's mint-A account to the
/// vault, signed by the maker alone.
pub proof fn lemma_make_writes_its_request(
    data: Seq<u8>,
    accounts: Seq<AccountView>,
    m: Make,
    actions: Seq<Action>,
)
    requires
        make_outcome(Ok(m)) == make_result(data, accounts),
        make_deposit_actions(m, actions),
    ensures
        make_record_bytes(m) == data.subrange(0, 8) + accounts[0].address@
            + accounts[2].address@ + accounts[3].address@ + data.subrange(8, 16) + seq![
            m.escrow_bump[0],
        ],
        actions.len() == 1,
        actions[0] == (Action::Transfer {
            from: accounts[4].address,
            to: accounts[5].address,
            authority: accounts[0].address,
            amount: spec_u64_from_le_bytes(data.subrange(16, 24)),
            signer_seeds: actions[0]->Transfer_signer_seeds,
        }),
        actions[0]->Transfer_signer_seeds@.len() == 0,
{
    lemma_make_escrow_address(data, accounts);
    vstd::bytes::lemma_auto_spec_u64_to_from_le_bytes();
    let s = data.subrange(8, 16);
    assert(spec_u64_to_le_bytes(spec_u64_from_le_bytes(s)) == s);
    assert(m.escrow_bump@ =~= seq![m.escrow_bump[0]]);
}

/// `take`'s swap in terms of its accounts: the taker's mint-B account pays
/// the maker's mint-B account the little-endian value of record bytes
/// 104..112, signed by the taker; the whole vault goes to the taker's mint-A
/// account; the vault is closed to the maker; the escrow is closed to the
/// maker. The escrow signs with `["escrow", maker, record bytes 0..8,
/// record byte 112]`.
pub proof fn lemma_take_swap(
    accounts: Seq<AccountView>,
    t: Take,
    vault_amount: u64,
    actions: Seq<Action>,
)
    requires
        take_accounts_of(t.accounts, accounts),
        take_process_actions(t, vault_amount, actions),
    ensures
        ({
            let record = accounts[2].data@;
            let seeds = seq![tag(), accounts[1].address@, record.subrange(0, 8), record.subrange(112, 113)];
            &&& actions.len() == 4
            &&& actions[0] matches Action::Transfer { from, to, authority, amount, signer_seeds }
                && from == accounts[7].address && to == accounts[8].address && authority
                == accounts[0].address && amount == spec_u64_from_le_bytes(record.subrange(104, 112))
                && signer_seeds@.len() == 0
            &&& actions[1] matches Action::Transfer { from, to, authority, amount, signer_seeds }
                && from == accounts[5].address && to == accounts[6].address && authority
                == accounts[2].address && amount == vault_amount && signer_seeds.deep_view() == seeds
            &&& actions[2] matches Action::CloseTokenAccount { account, destination, authority, signer_seeds }
                && account == accounts[5].address && destination == accounts[1].address
                && authority == accounts[2].address && signer_seeds.deep_view() == seeds
            &&& actions[3] == (Action::CloseProgramAccount {
                account: accounts[2].address,
                destination: accounts[1].address,
            })
        }),
        take_setup_actions(t) == seq![
            Action::CreateAssociatedTokenAccount {
                funding_account: accounts[0].address,
                account: accounts[6].address,
                wallet: accounts[0].address,
                mint: accounts[3].address,
                system_program: accounts[9].address,
                token_program: accounts[10].address,
                idempotent: true,
            },
            Action::CreateAssociatedTokenAccount {
                funding_account: accounts[0].address,
                account: accounts[8].address,
                wallet: accounts[1].address,
                mint: accounts[4].address,
                system_program: accounts[9].address,
                token_program: accounts[10].address,
                idempotent: true,
            },
        ],
{
    lemma_record_layout(t.accounts.state);
    assert(crate::cpi::escrow_tag() =~= tag());
}

/// `refund` in terms of its accounts: the whole vault goes to the maker's
/// mint-A account, the vault is closed to the maker, the escrow is closed to
/// the maker; the escrow signs with `["escrow", maker, record bytes 0..8,
/// record byte 112]`; the maker's mint-A account is created if missing.
pub proof fn lemma_refund_returns(
    accounts: Seq<AccountView>,
    rf: Refund,
    vault_amount: u64,
    actions: Seq<Action>,
)
    requires
        refund_accounts_of(rf.accounts, accounts),
        refund_process_actions(rf, vault_amount, actions),
    ensures
        ({
            let record = accounts[1].data@;
            let seeds = seq![tag(), accounts[0].address@, record.subrange(0, 8), record.subrange(112, 113)];
            &&& actions.len() == 3
            &&& actions[0] matches Action::Transfer { from, to, authority, amount, signer_seeds }
                && from == accounts[3].address && to == accounts[4].address && authority
                == accounts[1].address && amount == vault_amount && signer_seeds.deep_view() == seeds
            &&& actions[1] matches Action::CloseTokenAccount { account, destination, authority, signer_seeds }
                && account == accounts[3].address && destination == accounts[0].address
                && authority == accounts[1].address && signer_seeds.deep_view() == seeds
            &&& actions[2] == (Action::CloseProgramAccount {
                account: accounts[1].address,
                destination: accounts[0].address,
            })
        }),
        refund_setup_actions(rf) == seq![
            Action::CreateAssociatedTokenAccount {
                funding_account: accounts[0].address,
                account: accounts[4].address,
                wallet: accounts[0].address,
                mint: accounts[2].address,
                system_program: accounts[5].address,
                token_program: accounts[6].address,
                idempotent: true,
            },
        ],
{
    lemma_record_layout(rf.accounts.state);
    assert(crate::cpi::escrow_tag() =~= tag());
}

/// The discriminator byte: `0` is make, `1` take, `2` refund, and no other
/// byte names an instruction.
pub proof fn lemma_discriminators(d: u8)
    ensures
        instruction_of(d) == Some(EscrowInstruction::Make) <==> d == 0,
        instruction_of(d) == Some(EscrowInstruction::Take) <==> d == 1,
        instruction_of(d) == Some(EscrowInstruction::Refund) <==> d == 2,
        instruction_of(d) is None <==> d > 2,
{
}

/// The escrow account is created holding the rent-exempt minimum for its
/// 113 bytes: `(128 + 113) * lamports_per_byte`, for every permitted rate.
pub proof fn lemma_escrow_rent(lamports_per_byte: u64)
    ensures
        lamports_per_byte <= 1759197129867 ==> rent_exempt_minimum(lamports_per_byte, Escrow::LEN)
            == Some((241 * lamports_per_byte) as u64) && 241 * lamports_per_byte <= u64::MAX,
        lamports_per_byte > 1759197129867 ==> rent_exempt_minimum(lamports_per_byte, Escrow::LEN) is None,
{
}

/// Which error `make` answers: an unsigned maker is
/// `MissingRequiredSignature`; with valid accounts, bad data is
/// `InvalidInstructionData`; with valid accounts and data, no derivable
/// escrow address is `InvalidSeeds` and an escrow elsewhere than the derived
/// address is `InvalidArgument`.
pub proof fn lemma_make_errors(data: Seq<u8>, accounts: Seq<AccountView>)
    requires
        accounts.len() == 9,
    ensures
        !accounts[0].is_signer ==> make_result(data, accounts) == Err::<
            (crate::instructions::make::MakeAccounts, crate::instructions::make::MakeInstructionData, u8),
            ProgramError,
        >(ProgramError::MissingRequiredSignature),
        ({
            let valid_accounts = accounts[0].is_signer && is_mint(accounts[2]) && is_mint(accounts[3])
                && is_ata(accounts[4], accounts[0], accounts[2], accounts[7]);
            let valid_data = data.len() == 24 && spec_u64_from_le_bytes(data.subrange(8, 16)) != 0
                && spec_u64_from_le_bytes(data.subrange(16, 24)) != 0;
            let derived = program_address(seq![tag(), accounts[0].address@, data.subrange(0, 8)], ID@);
            &&& valid_accounts && !valid_data ==> make_result(data, accounts) == Err::<
                (crate::instructions::make::MakeAccounts, crate::instructions::make::MakeInstructionData, u8),
                ProgramError,
            >(ProgramError::InvalidInstructionData)
            &&& valid_accounts && valid_data && derived is None ==> make_result(data, accounts) == Err::<
                (crate::instructions::make::MakeAccounts, crate::instructions::make::MakeInstructionData, u8),
                ProgramError,
            >(ProgramError::InvalidSeeds)
            &&& valid_accounts && valid_data && (derived matches Some((found, _b)) && found@ != accounts[1].address@)
                ==> make_result(data, accounts) == Err::<
                (crate::instructions::make::MakeAccounts, crate::instructions::make::MakeInstructionData, u8),
                ProgramError,
            >(ProgramError::InvalidArgument)
        }),
{
    vstd::bytes::lemma_auto_spec_u64_to_from_le_bytes();
    lemma_token_ids_differ();
    assert(crate::cpi::escrow_tag() =~= tag());
    if data.len() == 24 {
        let s = data.subrange(0, 8);
        assert(spec_u64_to_le_bytes(spec_u64_from_le_bytes(s)) == s);
        assert(seq![crate::cpi::escrow_tag(), accounts[0].address@, crate::state::u64_le(spec_u64_from_le_bytes(s))] =~= seq![
            tag(),
            accounts[0].address@,
            s,
        ]);
    }
}

/// Which error `take` answers when its escrow is wrong: an unsigned taker is
/// `MissingRequiredSignature`; otherwise an escrow of another program is
/// `InvalidAccountOwner`, one of another length `InvalidAccountData`, and
/// passed mints other than the recorded ones `InvalidAccountData`.
pub proof fn lemma_take_errors(accounts: Seq<AccountView>)
    requires
        accounts.len() == 12,
    ensures
        !accounts[0].is_signer ==> take_accounts_check(accounts) == Err::<(), ProgramError>(
            ProgramError::MissingRequiredSignature,
        ),
        accounts[0].is_signer && accounts[2].owner@ != ID@ ==> take_accounts_check(accounts)
            == Err::<(), ProgramError>(ProgramError::InvalidAccountOwner),
        accounts[0].is_signer && accounts[2].owner@ == ID@ && accounts[2].data@.len() != 113
            ==> take_accounts_check(accounts) == Err::<(), ProgramError>(
            ProgramError::InvalidAccountData,
        ),
        accounts[0].is_signer && accounts[2].owner@ == ID@ && accounts[2].data@.len() == 113 && (
        accounts[3].address@ != accounts[2].data@.subrange(40, 72) || accounts[4].address@
            != accounts[2].data@.subrange(72, 104)) ==> take_accounts_check(accounts) == Err::<
            (),
            ProgramError,
        >(ProgramError::InvalidAccountData),
{
}

/// Which error `refund` answers when its escrow is wrong: an unsigned maker
/// is `MissingRequiredSignature`; otherwise an escrow of another program is
/// `InvalidAccountOwner`, one of another length `InvalidAccountData`, and a
/// mint A other than the recorded one `InvalidAccountData`.
pub proof fn lemma_refund_errors(accounts: Seq<AccountView>)
    requires
        accounts.len() == 8,
    ensures
        !accounts[0].is_signer ==> refund_accounts_check(accounts) == Err::<(), ProgramError>(
            ProgramError::MissingRequiredSignature,
        ),
        accounts[0].is_signer && accounts[1].owner@ != ID@ ==> refund_accounts_check(accounts)
            == Err::<(), ProgramError>(ProgramError::InvalidAccountOwner),
        accounts[0].is_signer && accounts[1].owner@ == ID@ && accounts[1].data@.len() != 113
            ==> refund_accounts_check(accounts) == Err::<(), ProgramError>(
            ProgramError::InvalidAccountData,
        ),
        accounts[0].is_signer && accounts[1].owner@ == ID@ && accounts[1].data@.len() == 113
            && accounts[2].address@ != accounts[1].data@.subrange(40, 72)
            ==> refund_accounts_check(accounts) == Err::<(), ProgramError>(
            ProgramError::InvalidAccountData,
        ),
{
}

} // verus!
