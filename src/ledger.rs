use vstd::prelude::*;
use vstd::utf8::encode_utf8;
use crate::address::Address;
use crate::external::{
    associated_address, associated_address_of, find_program_address, holding_account_len,
    mint_account_len, program_address_of, rent_exempt_minimum, rent_exempt_of,
};
use crate::token::{mint_to, HoldingAccount, MintAccount, TokenError, TokenMetadata};

verus! {

/// The longest token name, in bytes.
pub const MAX_NAME_LEN: usize = 32;

/// Bytes of a registry record: an 8-byte tag, then mint (32), authority (32),
/// supply (8), decimals (1), is_initialized (1), bump (1), mint_authority (32)
/// and the name with its 4-byte length prefix (4 + 32).
pub const METADATA_SPACE: usize = 151;

/// What an account at some address holds.
#[derive(Clone, Debug)]
pub enum AccountData {
    Mint(MintAccount),
    Holding(HoldingAccount),
    Metadata(TokenMetadata),
}

/// An account of the ledger: its address and what it holds.
#[derive(Clone, Debug)]
pub struct Account {
    pub address: Address,
    pub data: AccountData,
}

/// The accounts that a caller brings to `create_token`: the issuer, who pays and
/// becomes the authority, the address chosen for the new mint, and the lamports
/// the issuer can spend on the new accounts.
#[derive(Clone, Copy, Debug)]
pub struct CreateToken {
    pub payer: Address,
    pub mint: Address,
    pub funds: u64,
}

/// The addresses of the three accounts that a successful `create_token` makes.
#[derive(Clone, Copy, Debug)]
pub struct CreatedToken {
    pub mint: Address,
    pub holding: Address,
    pub metadata: Address,
}

/// The ledger state that token creation works on: the id of the owning program,
/// which namespaces derived registry addresses, and the accounts in order of
/// creation.
#[derive(Debug)]
pub struct Ledger {
    pub program: Address,
    pub accounts: Vec<Account>,
}

/// The fixed namespace seed of registry addresses, the bytes of `token_metadata`.
pub open spec fn metadata_seed() -> Seq<u8> {
    seq![116u8, 111u8, 107u8, 101u8, 110u8, 95u8, 109u8, 101u8, 116u8, 97u8, 100u8, 97u8, 116u8, 97u8]
}

fn metadata_seed_bytes() -> (r: Vec<u8>)
    ensures
        r@ == metadata_seed(),
{
    let r: Vec<u8> = vec![116u8, 111u8, 107u8, 101u8, 110u8, 95u8, 109u8, 101u8, 116u8, 97u8, 100u8, 97u8, 116u8, 97u8];
    assert(r@ =~= metadata_seed());
    r
}

/// The bytes of a name, as UTF-8.
pub open spec fn name_bytes(name: Seq<char>) -> Seq<u8> {
    encode_utf8(name)
}

/// The registry address and bump for `name` under `program`, or why there is none.
pub open spec fn derive_outcome(program: Seq<u8>, name: Seq<char>) -> Result<(Seq<u8>, u8), TokenError> {
    if name_bytes(name).len() > MAX_NAME_LEN {
        Err(TokenError::InvalidName)
    } else {
        match program_address_of(metadata_seed(), name_bytes(name), program) {
            Some(p) => Ok(p),
            None => Err(TokenError::LedgerFailure),
        }
    }
}

/// Derives the registry address of `meme_name` under `program`: a function of
/// the name and the fixed seed alone. A name over 32 bytes is refused before
/// anything else.
pub fn derive_metadata_address(program: &Address, meme_name: &str) -> (r: Result<(Address, u8), TokenError>)
    ensures
        match r {
            Ok(p) => derive_outcome(program@, meme_name@) == Ok::<(Seq<u8>, u8), TokenError>((p.0@, p.1)),
            Err(e) => derive_outcome(program@, meme_name@) == Err::<(Seq<u8>, u8), TokenError>(e),
        },
{
    let bytes = meme_name.as_bytes();
    if bytes.len() > MAX_NAME_LEN {
        return Err(TokenError::InvalidName);
    }
    let seed = metadata_seed_bytes();
    match find_program_address(seed.as_slice(), bytes, program) {
        Some(p) => Ok(p),
        None => Err(TokenError::LedgerFailure),
    }
}

/// The lamports that the three new accounts need to be rent-exempt.
pub open spec fn creation_rent() -> int {
    rent_exempt_of(82) + rent_exempt_of(165) + rent_exempt_of(METADATA_SPACE as nat)
}

fn creation_rent_lamports() -> (r: u128)
    ensures
        r == creation_rent(),
{
    let m = rent_exempt_minimum(mint_account_len());
    let h = rent_exempt_minimum(holding_account_len());
    let d = rent_exempt_minimum(METADATA_SPACE);
    m as u128 + h as u128 + d as u128
}

/// Position of the latest account at address `a`, or -1.
pub open spec fn index_of(s: Seq<Account>, a: Seq<u8>) -> int
    decreases s.len(),
{
    if s.len() == 0 {
        -1
    } else if s.last().address@ == a {
        s.len() - 1
    } else {
        index_of(s.drop_last(), a)
    }
}

impl Ledger {
    /// The account at address `a`, if any.
    pub open spec fn account(&self, a: Seq<u8>) -> Option<Account> {
        let i = index_of(self.accounts@, a);
        if i >= 0 {
            Some(self.accounts@[i])
        } else {
            None
        }
    }

    /// Whether address `a` already holds an account.
    pub open spec fn occupied(&self, a: Seq<u8>) -> bool {
        index_of(self.accounts@, a) >= 0
    }

    /// An empty ledger owned by `program`.
    pub fn new(program: Address) -> (r: Ledger)
        ensures
            r.program == program,
            r.accounts@.len() == 0,
    {
        Ledger { program, accounts: Vec::new() }
    }

    fn find(&self, a: &Address) -> (r: Option<usize>)
        ensures
            match r {
                Some(i) => i as int == index_of(self.accounts@, a@) && i < self.accounts@.len(),
                None => index_of(self.accounts@, a@) == -1,
            },
    {
        let mut i: usize = self.accounts.len();
        assert(self.accounts@.subrange(0, i as int) =~= self.accounts@);
        while i > 0
            invariant
                i <= self.accounts@.len(),
                index_of(self.accounts@, a@) == index_of(self.accounts@.subrange(0, i as int), a@),
            decreases i,
        {
            let s = Ghost(self.accounts@.subrange(0, i as int));
            assert(s@.drop_last() =~= self.accounts@.subrange(0, i - 1));
            if self.accounts[i - 1].address.same_as(a) {
                return Some(i - 1);
            }
            i = i - 1;
        }
        assert(self.accounts@.subrange(0, 0) =~= Seq::<Account>::empty());
        None
    }

    /// Whether address `a` already holds an account.
    pub fn is_occupied(&self, a: &Address) -> (r: bool)
        ensures
            r == self.occupied(a@),
    {
        self.find(a).is_some()
    }

    /// The registry record of the token named `name`, if one exists: the record
    /// at the address derived from the name.
    pub open spec fn token_named(&self, name: Seq<char>) -> Option<TokenMetadata> {
        match derive_outcome(self.program@, name) {
            Ok(p) => match self.account(p.0) {
                Some(Account { data: AccountData::Metadata(m), .. }) => Some(m),
                _ => None,
            },
            Err(_) => None,
        }
    }

    /// Looks a token up by name, by deriving its registry address again.
    pub fn find_token(&self, meme_name: &str) -> (r: Option<&TokenMetadata>)
        ensures
            match r {
                Some(m) => self.token_named(meme_name@) == Some(*m),
                None => self.token_named(meme_name@) is None,
            },
    {
        let (a, _bump) = match derive_metadata_address(&self.program, meme_name) {
            Ok(p) => p,
            Err(_) => return None,
        };
        match self.get(&a) {
            Some(Account { data: AccountData::Metadata(m), .. }) => Some(m),
            _ => None,
        }
    }

    /// The account at address `a`, if any.
    pub fn get(&self, a: &Address) -> (r: Option<&Account>)
        ensures
            match r {
                Some(x) => self.account(a@) == Some(*x),
                None => self.account(a@) is None,
            },
    {
        match self.find(a) {
            Some(i) => Some(&self.accounts[i]),
            None => None,
        }
    }
}

/// Why `create_token` must fail on `ledger` for this request, or `None` when it
/// must succeed. The checks come in the order of the steps: the name's address,
/// the funding and the two new accounts, then the registry record.
pub open spec fn create_error(ledger: Ledger, accounts: CreateToken, name: Seq<char>) -> Option<TokenError> {
    let holding = associated_address_of(accounts.payer@, accounts.mint@);
    match derive_outcome(ledger.program@, name) {
        Err(e) => Some(e),
        Ok(p) => {
            if accounts.funds < creation_rent() {
                Some(TokenError::FundingFailure)
            } else if ledger.occupied(accounts.mint@) || ledger.occupied(holding) || holding
                == accounts.mint@ {
                Some(TokenError::AlreadyInitialized)
            } else if ledger.occupied(p.0) || p.0 == accounts.mint@ || p.0 == holding {
                Some(TokenError::DuplicateToken)
            } else {
                None
            }
        },
    }
}

/// The three accounts that a successful creation appends, in order: the mint,
/// the issuer's holding account with the whole supply, and the registry record.
pub open spec fn created_accounts(
    accounts: CreateToken,
    meme_name: String,
    supply: u64,
    decimals: u8,
    bump: u8,
    c: CreatedToken,
) -> Seq<Account> {
    let payer = accounts.payer;
    seq![
        Account {
            address: c.mint,
            data: AccountData::Mint(
                MintAccount { decimals, mint_authority: payer, freeze_authority: payer, supply },
            ),
        },
        Account {
            address: c.holding,
            data: AccountData::Holding(HoldingAccount { owner: payer, mint: accounts.mint, balance: supply }),
        },
        Account {
            address: c.metadata,
            data: AccountData::Metadata(
                TokenMetadata {
                    mint: accounts.mint,
                    authority: payer,
                    supply,
                    decimals,
                    is_initialized: true,
                    bump,
                    mint_authority: payer,
                    meme_name,
                },
            ),
        },
    ]
}

/// What `create_token` promises: it fails, leaving the ledger as it was, exactly
/// when `create_error` names an error; otherwise it appends the mint, the holding
/// account and the record at their derived addresses and changes nothing else.
pub open spec fn create_token_post(
    before: Ledger,
    after: Ledger,
    accounts: CreateToken,
    meme_name: String,
    supply: u64,
    decimals: u8,
    r: Result<CreatedToken, TokenError>,
) -> bool {
    match r {
        Ok(c) => {
            let p = derive_outcome(before.program@, meme_name@)->Ok_0;
            &&& create_error(before, accounts, meme_name@) is None
            &&& c.mint == accounts.mint
            &&& c.holding@ == associated_address_of(accounts.payer@, accounts.mint@)
            &&& c.metadata@ == p.0
            &&& after.program == before.program
            &&& after.accounts@ == before.accounts@ + created_accounts(
                accounts,
                meme_name,
                supply,
                decimals,
                p.1,
                c,
            )
        },
        Err(e) => {
            &&& create_error(before, accounts, meme_name@) == Some(e)
            &&& after == before
        },
    }
}

/// Creates a token named `meme_name` in one all-or-nothing step: derives the
/// registry address from the name, creates the mint (the payer is its mint and
/// freeze authority) and the payer's holding account, records the metadata and
/// mints `supply` into the holding account. Nothing changes on failure.
pub fn create_token(
    ledger: &mut Ledger,
    accounts: &CreateToken,
    meme_name: String,
    supply: u64,
    decimals: u8,
) -> (r: Result<CreatedToken, TokenError>)
    ensures
        create_token_post(*old(ledger), *final(ledger), *accounts, meme_name, supply, decimals, r),
{
    let payer = accounts.payer;
    let mint = accounts.mint;
    // The registry address: a function of the name alone.
    let (record_address, bump) = match derive_metadata_address(&ledger.program, meme_name.as_str()) {
        Ok(p) => p,
        Err(e) => return Err(e),
    };
    // The mint and the holding account, staged until every check has passed.
    if (accounts.funds as u128) < creation_rent_lamports() {
        return Err(TokenError::FundingFailure);
    }
    let holding_address = associated_address(&payer, &mint);
    if ledger.is_occupied(&mint) || ledger.is_occupied(&holding_address) || holding_address.same_as(
        &mint,
    ) {
        return Err(TokenError::AlreadyInitialized);
    }
    let mint_account = MintAccount {
        decimals,
        mint_authority: payer,
        freeze_authority: payer,
        supply: 0,
    };
    let holding = HoldingAccount { owner: payer, mint, balance: 0 };
    // The registry record: its address is the uniqueness lock on the name.
    if ledger.is_occupied(&record_address) || record_address.same_as(&mint)
        || record_address.same_as(&holding_address) {
        return Err(TokenError::DuplicateToken);
    }
    let record = TokenMetadata {
        mint,
        authority: payer,
        supply,
        decimals,
        is_initialized: true,
        bump,
        mint_authority: payer,
        meme_name,
    };
    // The initial supply, minted by the payer as mint authority.
    let (mint_account, holding) = if supply > 0 {
        match mint_to(&mint_account, &mint, &holding, &payer, supply) {
            Ok(p) => p,
            Err(e) => return Err(e),
        }
    } else {
        (mint_account, holding)
    };
    // Commit.
    let c = CreatedToken { mint, holding: holding_address, metadata: record_address };
    ledger.accounts.push(Account { address: mint, data: AccountData::Mint(mint_account) });
    ledger.accounts.push(Account { address: holding_address, data: AccountData::Holding(holding) });
    ledger.accounts.push(Account { address: record_address, data: AccountData::Metadata(record) });
    proof {
        assert(ledger.accounts@ =~= old(ledger).accounts@ + created_accounts(
            *accounts,
            meme_name,
            supply,
            decimals,
            bump,
            c,
        ));
    }
    Ok(c)
}

} // verus!
