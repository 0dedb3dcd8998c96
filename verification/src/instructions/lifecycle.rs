use vstd::prelude::*;

use crate::cpi::escrow_signer_seeds;
use crate::instructions::make::{
    escrow_address, make_data_result, make_record_bytes, make_result, Make, MakeInstructionData,
};
use crate::account::AccountView;
use crate::ids::ID;
use crate::instructions::helpers::{associated_token_address, mint_check};
use crate::instructions::refund::{refund_accounts_check, Refund};
use crate::instructions::take::{recorded_mint_a, recorded_mint_b, take_accounts_check, Take};
use crate::state::{le_u64, lemma_u64_le_roundtrip, u64_le, Escrow};

verus! {

/// The fields of a record read from `bytes` are the slices of `bytes` at
/// their offsets.
proof fn lemma_record_fields(e: Escrow, bytes: Seq<u8>)
    requires
        e.spec_bytes() == bytes,
    ensures
        e.seed@ == bytes.subrange(0, 8),
        e.maker@ == bytes.subrange(8, 40),
        e.mint_a@ == bytes.subrange(40, 72),
        e.mint_b@ == bytes.subrange(72, 104),
        e.receive@ == bytes.subrange(104, 112),
        e.bump@ == bytes.subrange(112, 113),
{
    assert(e.seed@ =~= bytes.subrange(0, 8));
    assert(e.maker@ =~= bytes.subrange(8, 40));
    assert(e.mint_a@ =~= bytes.subrange(40, 72));
    assert(e.mint_b@ =~= bytes.subrange(72, 104));
    assert(e.receive@ =~= bytes.subrange(104, 112));
    assert(e.bump@ =~= bytes.subrange(112, 113));
}

/// What `take` reads of the escrow that `make` wrote: when the escrow's data
/// is the record `make` stored and the same maker is passed, the escrow
/// signs with exactly the seeds it was created with, the taker pays exactly
/// the `receive` the maker asked for, and the mints are the maker's.
pub proof fn lemma_take_reads_what_make_wrote(m: Make, t: Take)
    requires
        t.accounts.state.spec_bytes() == make_record_bytes(m),
        t.accounts.maker == m.accounts.maker,
    ensures
        escrow_signer_seeds(
            t.accounts.maker@,
            t.accounts.state.seed@,
            t.accounts.state.bump@,
        ) == escrow_signer_seeds(
            m.accounts.maker@,
            u64_le(m.instruction_data.seed),
            m.escrow_bump@,
        ),
        le_u64(t.accounts.state.receive@) == m.instruction_data.receive,
        t.accounts.state.mint_a == m.accounts.mint_a,
        t.accounts.state.mint_b == m.accounts.mint_b,
        t.accounts.state.maker == m.accounts.maker,
{
    let b = make_record_bytes(m);
    lemma_record_fields(t.accounts.state, b);
    lemma_u64_le_roundtrip(m.instruction_data.seed);
    lemma_u64_le_roundtrip(m.instruction_data.receive);
    assert(t.accounts.state.seed@ =~= u64_le(m.instruction_data.seed));
    assert(t.accounts.state.maker@ =~= m.accounts.maker@);
    assert(t.accounts.state.mint_a@ =~= m.accounts.mint_a@);
    assert(t.accounts.state.mint_b@ =~= m.accounts.mint_b@);
    assert(t.accounts.state.receive@ =~= u64_le(m.instruction_data.receive));
    assert(t.accounts.state.bump@ =~= m.escrow_bump@);
}

/// What `refund` reads of the escrow that `make` wrote: the escrow signs
/// with exactly the seeds it was created with, and mint A is the maker's.
pub proof fn lemma_refund_reads_what_make_wrote(m: Make, r: Refund)
    requires
        r.accounts.state.spec_bytes() == make_record_bytes(m),
        r.accounts.maker == m.accounts.maker,
    ensures
        escrow_signer_seeds(
            r.accounts.maker@,
            r.accounts.state.seed@,
            r.accounts.state.bump@,
        ) == escrow_signer_seeds(
            m.accounts.maker@,
            u64_le(m.instruction_data.seed),
            m.escrow_bump@,
        ),
        r.accounts.state.mint_a == m.accounts.mint_a,
{
    let b = make_record_bytes(m);
    lemma_record_fields(r.accounts.state, b);
    lemma_u64_le_roundtrip(m.instruction_data.seed);
    lemma_u64_le_roundtrip(m.instruction_data.receive);
    assert(r.accounts.state.seed@ =~= u64_le(m.instruction_data.seed));
    assert(r.accounts.state.mint_a@ =~= m.accounts.mint_a@);
    assert(r.accounts.state.bump@ =~= m.escrow_bump@);
}

/// `make` creates its escrow only at the address derived from the maker
/// and the seed, and records the bump of that derivation.
pub proof fn lemma_make_escrow_is_derived(data: Seq<u8>, accounts: Seq<AccountView>)
    requires
        make_result(data, accounts) is Ok,
    ensures
        ({
            let (acc, ix, bump) = make_result(data, accounts)->Ok_0;
            escrow_address(acc.maker, ix.seed) matches Some((found, b)) && found@ == acc.escrow@
                && b == bump
        }),
{
}

/// `make` never accepts a zero deposit or a zero asking amount.
pub proof fn lemma_make_amounts_nonzero(data: Seq<u8>)
    ensures
        make_data_result(data) matches Ok(ix) ==> ix.amount > 0 && ix.receive > 0,
{
}

/// The instruction data of `make` is its three values, little-endian, in
/// order: encoding `seed`, `receive`, `amount` and reading them back gives
/// them again, whenever the two amounts are non-zero.
pub proof fn lemma_make_data_encoding(seed: u64, receive: u64, amount: u64)
    requires
        receive > 0,
        amount > 0,
    ensures
        make_data_result(u64_le(seed) + u64_le(receive) + u64_le(amount)) == Ok::<
            MakeInstructionData,
            crate::error::ProgramError,
        >(MakeInstructionData { seed, receive, amount }),
{
    lemma_u64_le_roundtrip(seed);
    lemma_u64_le_roundtrip(receive);
    lemma_u64_le_roundtrip(amount);
    let d = u64_le(seed) + u64_le(receive) + u64_le(amount);
    assert(d.subrange(0, 8) =~= u64_le(seed));
    assert(d.subrange(8, 16) =~= u64_le(receive));
    assert(d.subrange(16, 24) =~= u64_le(amount));
}

/// `take` goes ahead only when the taker signed, the escrow is this
/// program's record, the passed mints are the recorded ones, and the vault is
/// the escrow's associated token account for mint A.
pub proof fn lemma_take_checks(accounts: Seq<AccountView>)
    requires
        take_accounts_check(accounts) is Ok,
    ensures
        accounts.len() == 12,
        accounts[0].is_signer,
        accounts[2].owner@ == ID@,
        accounts[2].data@.len() == Escrow::LEN,
        accounts[3].address@ == recorded_mint_a(accounts[2].data@),
        accounts[4].address@ == recorded_mint_b(accounts[2].data@),
        mint_check(accounts[3]) is Ok,
        mint_check(accounts[4]) is Ok,
        associated_token_address(accounts[2].address, accounts[3].address, accounts[10].address) matches Some((vault, _b)) && vault@ == accounts[5].address@,
        associated_token_address(accounts[0].address, accounts[4].address, accounts[10].address) matches Some((ata, _b)) && ata@ == accounts[7].address@,
{
}

/// `refund` goes ahead only when the maker signed, the escrow is this
/// program's record, the passed mint A is the recorded one, and the vault is
/// the escrow's associated token account for it.
pub proof fn lemma_refund_checks(accounts: Seq<AccountView>)
    requires
        refund_accounts_check(accounts) is Ok,
    ensures
        accounts.len() == 8,
        accounts[0].is_signer,
        accounts[1].owner@ == ID@,
        accounts[1].data@.len() == Escrow::LEN,
        accounts[2].address@ == recorded_mint_a(accounts[1].data@),
        mint_check(accounts[2]) is Ok,
        associated_token_address(accounts[1].address, accounts[2].address, accounts[6].address) matches Some((vault, _b)) && vault@ == accounts[3].address@,
        associated_token_address(accounts[0].address, accounts[2].address, accounts[6].address) matches Some((ata, _b)) && ata@ == accounts[4].address@,
{
}

/// `make` goes ahead only when the maker signed, both mints are mints, the
/// deposit comes from the maker's associated token account for mint A, and
/// both amounts are non-zero.
pub proof fn lemma_make_checks(data: Seq<u8>, accounts: Seq<AccountView>)
    requires
        make_result(data, accounts) is Ok,
    ensures
        accounts.len() == 9,
        accounts[0].is_signer,
        mint_check(accounts[2]) is Ok,
        mint_check(accounts[3]) is Ok,
        associated_token_address(accounts[0].address, accounts[2].address, accounts[7].address) matches Some((ata, _b)) && ata@ == accounts[4].address@,
        make_data_result(data) matches Ok(ix) && ix.amount > 0 && ix.receive > 0,
{
}

} // verus!
