use vstd::prelude::*;
use anchor_lang::prelude::Pubkey;
use anchor_lang::solana_program::program_pack::Pack;
use anchor_lang::prelude::Rent;
use anchor_spl::associated_token::get_associated_token_address;
use anchor_spl::token::spl_token;
use crate::address::Address;

verus! {

/// The program-derived address and bump seed that the ledger assigns to the
/// seeds `[prefix, name]` under `program`.
pub uninterp spec fn program_address_of(prefix: Seq<u8>, name: Seq<u8>, program: Seq<u8>) -> Option<(Seq<u8>, u8)>;

/// The associated holding-account address of `owner` for `mint`.
pub uninterp spec fn associated_address_of(owner: Seq<u8>, mint: Seq<u8>) -> Seq<u8>;

/// The lamports that keep an account of `data_len` bytes rent-exempt.
pub uninterp spec fn rent_exempt_of(data_len: nat) -> u64;

/// Relies on `Pubkey::try_find_program_address`: the result is a function of
/// the seeds and the program id alone, and is `None` when a seed is longer than
/// 32 bytes.
#[verifier::external_body]
pub(crate) fn find_program_address(prefix: &[u8], name: &[u8], program: &Address) -> (r: Option<(Address, u8)>)
    ensures
        match r {
            Some(p) => program_address_of(prefix@, name@, program@) == Some((p.0@, p.1)),
            None => program_address_of(prefix@, name@, program@) is None,
        },
        name@.len() > 32 ==> r is None,
{
    let program = Pubkey::new_from_array(program.bytes);
    Pubkey::try_find_program_address(&[prefix, name], &program)
        .map(|(a, bump)| (Address { bytes: a.to_bytes() }, bump))
}

/// Relies on `get_associated_token_address`: the holding address depends on the
/// owner and the mint alone. (Its source panics only where no bump seed exists
/// for the pair, which it calls statistically improbable.)
#[verifier::external_body]
pub(crate) fn associated_address(owner: &Address, mint: &Address) -> (r: Address)
    ensures
        r@ == associated_address_of(owner@, mint@),
{
    let a = get_associated_token_address(
        &Pubkey::new_from_array(owner.bytes),
        &Pubkey::new_from_array(mint.bytes),
    );
    Address { bytes: a.to_bytes() }
}

/// Relies on `Rent::minimum_balance` under `Rent::default()`: the minimum depends
/// on the data length alone. Lengths are bounded so that its `u64` product
/// cannot overflow.
#[verifier::external_body]
pub(crate) fn rent_exempt_minimum(data_len: usize) -> (r: u64)
    requires
        data_len <= 1_000_000,
    ensures
        r == rent_exempt_of(data_len as nat),
{
    Rent::default().minimum_balance(data_len)
}

/// Relies on spl-token's `Pack` impl for `Mint`: a mint account holds 82 bytes.
#[verifier::external_body]
pub(crate) fn mint_account_len() -> (r: usize)
    ensures
        r == 82,
{
    spl_token::state::Mint::LEN
}

/// Relies on spl-token's `Pack` impl for `Account`: a token account holds 165
/// bytes.
#[verifier::external_body]
pub(crate) fn holding_account_len() -> (r: usize)
    ensures
        r == 165,
{
    spl_token::state::Account::LEN
}

} // verus!
