use vstd::prelude::*;
use crate::external::associated_address_of;
use crate::ledger::{
    create_error, create_token_post, creation_rent, derive_outcome, index_of, name_bytes,
    Account, AccountData, CreateToken, CreatedToken, Ledger, MAX_NAME_LEN,
};
use crate::token::{TokenError, TokenMetadata};

verus! {

/// A name is a uniqueness lock: once a creation under a name has succeeded, a
/// later creation under the same name fails with `DuplicateToken` and leaves the
/// ledger, and so the first token's accounts, as they were. This holds whenever
/// the later request brings a fresh mint whose holding address is free, and
/// enough funds, so that no earlier step fails first.
pub proof fn lemma_second_creation_is_duplicate(
    l0: Ledger,
    l1: Ledger,
    l2: Ledger,
    first: CreateToken,
    second: CreateToken,
    name: String,
    again: String,
    supply1: u64,
    decimals1: u8,
    supply2: u64,
    decimals2: u8,
    r1: Result<CreatedToken, TokenError>,
    r2: Result<CreatedToken, TokenError>,
)
    requires
        create_token_post(l0, l1, first, name, supply1, decimals1, r1),
        r1 is Ok,
        create_token_post(l1, l2, second, again, supply2, decimals2, r2),
        again@ == name@,
        second.funds >= creation_rent(),
        !l1.occupied(second.mint@),
        !l1.occupied(associated_address_of(second.payer@, second.mint@)),
        associated_address_of(second.payer@, second.mint@) != second.mint@,
    ensures
        r2 == Err::<CreatedToken, TokenError>(TokenError::DuplicateToken),
        l2 == l1,
{
    let s = l1.accounts@;
    assert(s.last() == s[s.len() - 1]);
    assert(index_of(s, s.last().address@) == s.len() - 1);
}

/// A successful creation records what was asked: the registry record at the
/// returned address holds the name, the supply, the decimals, the mint and the
/// issuer as authority and mint authority, and is marked initialized; the
/// holding account belongs to the issuer, is bound to the mint and holds the
/// whole supply; the mint has that supply and the issuer as its authorities.
pub proof fn lemma_creation_records_request(
    l0: Ledger,
    l1: Ledger,
    accounts: CreateToken,
    name: String,
    supply: u64,
    decimals: u8,
    c: CreatedToken,
)
    requires
        create_token_post(l0, l1, accounts, name, supply, decimals, Ok(c)),
    ensures
        match l1.account(c.metadata@) {
            Some(Account { data: AccountData::Metadata(m), .. }) => {
                &&& m.meme_name@ == name@
                &&& m.supply == supply
                &&& m.decimals == decimals
                &&& m.is_initialized
                &&& m.mint == accounts.mint
                &&& m.authority == accounts.payer
                &&& m.mint_authority == accounts.payer
            },
            _ => false,
        },
        match l1.account(c.holding@) {
            Some(Account { data: AccountData::Holding(h), .. }) => {
                &&& h.balance == supply
                &&& h.owner == accounts.payer
                &&& h.mint == accounts.mint
            },
            _ => false,
        },
        match l1.account(c.mint@) {
            Some(Account { data: AccountData::Mint(m), .. }) => {
                &&& m.supply == supply
                &&& m.decimals == decimals
                &&& m.mint_authority == accounts.payer
                &&& m.freeze_authority == accounts.payer
            },
            _ => false,
        },
{
    let s = l1.accounts@;
    let n = s.len();
    assert(s.drop_last().last() == s[n - 2]);
    assert(s.drop_last().drop_last().last() == s[n - 3]);
    assert(index_of(s, c.metadata@) == n - 1);
    assert(index_of(s.drop_last(), c.holding@) == n - 2);
    assert(index_of(s, c.holding@) == n - 2);
    assert(index_of(s.drop_last().drop_last(), c.mint@) == n - 3);
    assert(index_of(s.drop_last(), c.mint@) == n - 3);
    assert(index_of(s, c.mint@) == n - 3);
}

/// A zero supply is a valid request: the creation then leaves a holding account
/// with balance 0 and a mint with supply 0 beside the registry record.
pub proof fn lemma_zero_supply_holds_nothing(
    l0: Ledger,
    l1: Ledger,
    accounts: CreateToken,
    name: String,
    decimals: u8,
    c: CreatedToken,
)
    requires
        create_token_post(l0, l1, accounts, name, 0, decimals, Ok(c)),
    ensures
        match l1.account(c.holding@) {
            Some(Account { data: AccountData::Holding(h), .. }) => h.balance == 0,
            _ => false,
        },
        match l1.account(c.mint@) {
            Some(Account { data: AccountData::Mint(m), .. }) => m.supply == 0,
            _ => false,
        },
        l1.account(c.metadata@) is Some,
{
    lemma_creation_records_request(l0, l1, accounts, name, 0, decimals, c);
}

/// Names are bounded by 32 bytes: a longer name is refused with `InvalidName`
/// before anything is created, and a name within the bound is never refused
/// for its length.
pub proof fn lemma_name_length_bound(
    l0: Ledger,
    l1: Ledger,
    accounts: CreateToken,
    name: String,
    supply: u64,
    decimals: u8,
    r: Result<CreatedToken, TokenError>,
)
    requires
        create_token_post(l0, l1, accounts, name, supply, decimals, r),
    ensures
        name_bytes(name@).len() > MAX_NAME_LEN ==> r == Err::<CreatedToken, TokenError>(
            TokenError::InvalidName,
        ) && l1 == l0,
        name_bytes(name@).len() <= MAX_NAME_LEN ==> r != Err::<CreatedToken, TokenError>(
            TokenError::InvalidName,
        ),
{
    if name_bytes(name@).len() <= MAX_NAME_LEN {
        assert(derive_outcome(l0.program@, name@) != Err::<(Seq<u8>, u8), TokenError>(TokenError::InvalidName));
        assert(create_error(l0, accounts, name@) != Some(TokenError::InvalidName));
    }
}

/// The registry is searchable by name: after a successful creation, looking the
/// name up again finds exactly the record that was written.
pub proof fn lemma_created_token_found_by_name(
    l0: Ledger,
    l1: Ledger,
    accounts: CreateToken,
    name: String,
    supply: u64,
    decimals: u8,
    c: CreatedToken,
)
    requires
        create_token_post(l0, l1, accounts, name, supply, decimals, Ok(c)),
    ensures
        l1.token_named(name@) == Some(
            TokenMetadata {
                mint: accounts.mint,
                authority: accounts.payer,
                supply,
                decimals,
                is_initialized: true,
                bump: derive_outcome(l0.program@, name@)->Ok_0.1,
                mint_authority: accounts.payer,
                meme_name: name,
            },
        ),
{
    let s = l1.accounts@;
    assert(index_of(s, c.metadata@) == s.len() - 1);
}

} // verus!
