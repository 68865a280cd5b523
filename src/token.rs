use vstd::prelude::*;
use crate::address::Address;

verus! {

/// Why a token could not be created.
#[derive(Clone, Copy, Debug, PartialEq, Eq, Structural)]
pub enum TokenError {
    /// The name is longer than 32 bytes.
    InvalidName,
    /// The registry address derived from the name already holds data.
    DuplicateToken,
    /// The mint or the holding account already exists.
    AlreadyInitialized,
    /// The issuer cannot pay for the new accounts.
    FundingFailure,
    /// The authority that asked to mint is not the mint's authority.
    UnauthorizedMint,
    /// The ledger refused an account or a mint for another reason.
    LedgerFailure,
}

/// The supply-control parameters of one fungible token.
#[derive(Clone, Copy, Debug)]
pub struct MintAccount {
    pub decimals: u8,
    pub mint_authority: Address,
    pub freeze_authority: Address,
    pub supply: u64,
}

/// One owner's balance of one mint.
#[derive(Clone, Copy, Debug)]
pub struct HoldingAccount {
    pub owner: Address,
    pub mint: Address,
    pub balance: u64,
}

/// The registry record that describes one issuance.
#[derive(Clone, Debug)]
pub struct TokenMetadata {
    pub mint: Address,
    pub authority: Address,
    pub supply: u64,
    pub decimals: u8,
    pub is_initialized: bool,
    pub bump: u8,
    pub mint_authority: Address,
    pub meme_name: String,
}

/// What a successful mint leaves: the mint with its supply raised and the
/// destination with its balance raised, both by `amount`.
pub open spec fn minted(mint: MintAccount, dest: HoldingAccount, amount: u64) -> (MintAccount, HoldingAccount) {
    (
        MintAccount { supply: (mint.supply + amount) as u64, ..mint },
        HoldingAccount { balance: (dest.balance + amount) as u64, ..dest },
    )
}

/// The outcome of crediting `amount` units of the mint at `mint_address` to
/// `dest` on behalf of `authority`.
pub open spec fn mint_outcome(
    mint: MintAccount,
    mint_address: Seq<u8>,
    dest: HoldingAccount,
    authority: Seq<u8>,
    amount: u64,
) -> Result<(MintAccount, HoldingAccount), TokenError> {
    if dest.mint@ != mint_address {
        Err(TokenError::LedgerFailure)
    } else if authority != mint.mint_authority@ {
        Err(TokenError::UnauthorizedMint)
    } else if mint.supply + amount > u64::MAX || dest.balance + amount > u64::MAX {
        Err(TokenError::LedgerFailure)
    } else {
        Ok(minted(mint, dest, amount))
    }
}

/// Credits `amount` units of the mint at `mint_address` to `dest`. Only the
/// mint's own authority may do so, and neither the supply nor the balance may
/// pass `u64::MAX`.
pub fn mint_to(
    mint: &MintAccount,
    mint_address: &Address,
    dest: &HoldingAccount,
    authority: &Address,
    amount: u64,
) -> (r: Result<(MintAccount, HoldingAccount), TokenError>)
    ensures
        r == mint_outcome(*mint, mint_address@, *dest, authority@, amount),
{
    if !dest.mint.same_as(mint_address) {
        return Err(TokenError::LedgerFailure);
    }
    if !authority.same_as(&mint.mint_authority) {
        return Err(TokenError::UnauthorizedMint);
    }
    if mint.supply > u64::MAX - amount || dest.balance > u64::MAX - amount {
        return Err(TokenError::LedgerFailure);
    }
    let new_mint = MintAccount { supply: mint.supply + amount, ..*mint };
    let new_dest = HoldingAccount { balance: dest.balance + amount, ..*dest };
    Ok((new_mint, new_dest))
}

} // verus!
