use std::str::FromStr;

use anchor_lang::prelude::Pubkey;
use anchor_spl::associated_token::get_associated_token_address;
use meme_tokens::{
    create_token, derive_metadata_address, mint_to, AccountData, Address, CreateToken, HoldingAccount,
    Ledger, MintAccount, TokenError, TokenMetadata,
};

const PROGRAM_ID: &str = "838to942ATb6jwyL9fbPxpHk33wfeckvkBhhK9iejhMp";
const FUNDS: u64 = 1_000_000_000;

fn program() -> Address {
    Address::new(Pubkey::from_str(PROGRAM_ID).unwrap().to_bytes())
}

fn addr(b: u8) -> Address {
    Address::new([b; 32])
}

fn request(payer: u8, mint: u8) -> CreateToken {
    CreateToken { payer: addr(payer), mint: addr(mint), funds: FUNDS }
}

fn record(ledger: &Ledger, a: &Address) -> TokenMetadata {
    match &ledger.get(a).expect("record").data {
        AccountData::Metadata(m) => m.clone(),
        _ => panic!("not a record"),
    }
}

fn holding(ledger: &Ledger, a: &Address) -> HoldingAccount {
    match &ledger.get(a).expect("holding").data {
        AccountData::Holding(h) => *h,
        _ => panic!("not a holding account"),
    }
}

fn mint(ledger: &Ledger, a: &Address) -> MintAccount {
    match &ledger.get(a).expect("mint").data {
        AccountData::Mint(m) => *m,
        _ => panic!("not a mint"),
    }
}

#[test]
fn scenario_a_creates_doge2() {
    let mut ledger = Ledger::new(program());
    let c = create_token(&mut ledger, &request(1, 2), "DOGE2".to_string(), 1_000_000, 6).unwrap();
    assert_eq!(ledger.accounts.len(), 3);
    let m = record(&ledger, &c.metadata);
    assert_eq!(m.meme_name, "DOGE2");
    assert_eq!(m.supply, 1_000_000);
    assert_eq!(m.decimals, 6);
    assert!(m.is_initialized);
    assert_eq!(m.mint.bytes, [2; 32]);
    assert_eq!(m.authority.bytes, [1; 32]);
    assert_eq!(m.mint_authority.bytes, [1; 32]);
    assert_eq!(holding(&ledger, &c.holding).balance, 1_000_000);
    assert_eq!(holding(&ledger, &c.holding).owner.bytes, [1; 32]);
    let mi = mint(&ledger, &c.mint);
    assert_eq!(mi.supply, 1_000_000);
    assert_eq!(mi.decimals, 6);
    assert_eq!(mi.freeze_authority.bytes, [1; 32]);
}

#[test]
fn scenario_b_repeat_is_duplicate() {
    let mut ledger = Ledger::new(program());
    let c = create_token(&mut ledger, &request(1, 2), "DOGE2".to_string(), 1_000_000, 6).unwrap();
    let r = create_token(&mut ledger, &request(1, 3), "DOGE2".to_string(), 1_000_000, 6);
    assert_eq!(r.unwrap_err(), TokenError::DuplicateToken);
    assert_eq!(ledger.accounts.len(), 3);
    let m = record(&ledger, &c.metadata);
    assert_eq!(m.supply, 1_000_000);
    assert_eq!(m.mint.bytes, [2; 32]);
    assert_eq!(holding(&ledger, &c.holding).balance, 1_000_000);
}

#[test]
fn repeat_by_another_issuer_is_duplicate() {
    let mut ledger = Ledger::new(program());
    create_token(&mut ledger, &request(1, 2), "PEPE".to_string(), 7, 0).unwrap();
    let r = create_token(&mut ledger, &request(9, 8), "PEPE".to_string(), 1, 1);
    assert_eq!(r.unwrap_err(), TokenError::DuplicateToken);
    assert_eq!(ledger.accounts.len(), 3);
}

#[test]
fn scenario_c_zero_supply() {
    let mut ledger = Ledger::new(program());
    let c = create_token(&mut ledger, &request(1, 2), "ZERO".to_string(), 0, 9).unwrap();
    assert_eq!(holding(&ledger, &c.holding).balance, 0);
    assert_eq!(mint(&ledger, &c.mint).supply, 0);
    let m = record(&ledger, &c.metadata);
    assert_eq!(m.supply, 0);
    assert_eq!(m.decimals, 9);
}

#[test]
fn scenario_d_long_name_is_invalid() {
    let mut ledger = Ledger::new(program());
    let name = "A".repeat(33);
    let r = create_token(&mut ledger, &request(1, 2), name, 100, 0);
    assert_eq!(r.unwrap_err(), TokenError::InvalidName);
    assert!(ledger.accounts.is_empty());
}

#[test]
fn name_of_32_bytes_succeeds() {
    let mut ledger = Ledger::new(program());
    let name = "B".repeat(32);
    let c = create_token(&mut ledger, &request(1, 2), name.clone(), 100, 0).unwrap();
    assert_eq!(record(&ledger, &c.metadata).meme_name, name);
}

#[test]
fn name_bound_counts_bytes_not_chars() {
    let mut ledger = Ledger::new(program());
    // 17 two-byte characters: 17 chars but 34 bytes.
    let name = "é".repeat(17);
    let r = create_token(&mut ledger, &request(1, 2), name, 1, 0);
    assert_eq!(r.unwrap_err(), TokenError::InvalidName);
    let ok = "é".repeat(16);
    assert!(create_token(&mut ledger, &request(1, 2), ok, 1, 0).is_ok());
}

#[test]
fn different_names_derive_different_addresses() {
    let names = ["DOGE2", "DOGE3", "ZERO", "zero", "", "A", "AA", "token_metadata"];
    let mut seen: Vec<[u8; 32]> = Vec::new();
    for n in names {
        let (a, _) = derive_metadata_address(&program(), n).unwrap();
        assert!(!seen.contains(&a.bytes), "collision for {n}");
        seen.push(a.bytes);
    }
}

#[test]
fn derivation_matches_the_ledger_and_is_deterministic() {
    let p = Pubkey::from_str(PROGRAM_ID).unwrap();
    let (expected, bump) = Pubkey::find_program_address(&[b"token_metadata", b"DOGE2"], &p);
    let (a, b) = derive_metadata_address(&program(), "DOGE2").unwrap();
    assert_eq!(a.bytes, expected.to_bytes());
    assert_eq!(b, bump);
    let (again, b2) = derive_metadata_address(&program(), "DOGE2").unwrap();
    assert_eq!(again.bytes, a.bytes);
    assert_eq!(b2, b);
    assert_ne!(a.bytes, program().bytes);
}

#[test]
fn derivation_rejects_long_name() {
    let r = derive_metadata_address(&program(), &"x".repeat(33));
    assert_eq!(r.unwrap_err(), TokenError::InvalidName);
}

#[test]
fn record_carries_the_derived_bump() {
    let mut ledger = Ledger::new(program());
    let c = create_token(&mut ledger, &request(1, 2), "BUMP".to_string(), 5, 2).unwrap();
    let (a, bump) = derive_metadata_address(&program(), "BUMP").unwrap();
    assert_eq!(c.metadata.bytes, a.bytes);
    assert_eq!(record(&ledger, &c.metadata).bump, bump);
}

#[test]
fn holding_address_is_the_associated_account() {
    let mut ledger = Ledger::new(program());
    let c = create_token(&mut ledger, &request(1, 2), "ATA".to_string(), 5, 2).unwrap();
    let expected = get_associated_token_address(
        &Pubkey::new_from_array([1; 32]),
        &Pubkey::new_from_array([2; 32]),
    );
    assert_eq!(c.holding.bytes, expected.to_bytes());
    assert_ne!(c.holding.bytes, [1; 32]);
}

#[test]
fn reused_mint_is_already_initialized() {
    let mut ledger = Ledger::new(program());
    create_token(&mut ledger, &request(1, 2), "ONE".to_string(), 5, 2).unwrap();
    let r = create_token(&mut ledger, &request(1, 2), "TWO".to_string(), 5, 2);
    assert_eq!(r.unwrap_err(), TokenError::AlreadyInitialized);
    assert_eq!(ledger.accounts.len(), 3);
}

#[test]
fn funding_below_rent_fails() {
    // Default rent: 2 years at 3480 lamports per byte-year over 128 + len bytes,
    // for 82 + 165 + 151 bytes of data.
    let need: u64 = 1_461_600 + 2_039_280 + 1_941_840;
    let mut ledger = Ledger::new(program());
    let poor = CreateToken { payer: addr(1), mint: addr(2), funds: need - 1 };
    let r = create_token(&mut ledger, &poor, "POOR".to_string(), 5, 2);
    assert_eq!(r.unwrap_err(), TokenError::FundingFailure);
    assert!(ledger.accounts.is_empty());
    let enough = CreateToken { payer: addr(1), mint: addr(2), funds: need };
    assert!(create_token(&mut ledger, &enough, "POOR".to_string(), 5, 2).is_ok());
}

#[test]
fn full_supply_and_max_decimals() {
    let mut ledger = Ledger::new(program());
    let c = create_token(&mut ledger, &request(4, 5), "MAX".to_string(), u64::MAX, 255).unwrap();
    assert_eq!(holding(&ledger, &c.holding).balance, u64::MAX);
    assert_eq!(record(&ledger, &c.metadata).decimals, 255);
}

#[test]
fn ledger_lookup_of_free_address() {
    let ledger = Ledger::new(program());
    assert!(ledger.get(&addr(7)).is_none());
    assert!(!ledger.is_occupied(&addr(7)));
}

fn sample_mint() -> MintAccount {
    MintAccount { decimals: 6, mint_authority: addr(1), freeze_authority: addr(1), supply: 10 }
}

fn sample_holding() -> HoldingAccount {
    HoldingAccount { owner: addr(1), mint: addr(2), balance: 4 }
}

#[test]
fn mint_to_credits_amount() {
    let (m, h) = mint_to(&sample_mint(), &addr(2), &sample_holding(), &addr(1), 100).unwrap();
    assert_eq!(m.supply, 110);
    assert_eq!(h.balance, 104);
    assert_eq!(m.decimals, 6);
}

#[test]
fn mint_to_by_other_authority_is_unauthorized() {
    let r = mint_to(&sample_mint(), &addr(2), &sample_holding(), &addr(3), 100);
    assert_eq!(r.unwrap_err(), TokenError::UnauthorizedMint);
}

#[test]
fn mint_to_other_mint_fails() {
    let r = mint_to(&sample_mint(), &addr(9), &sample_holding(), &addr(1), 100);
    assert_eq!(r.unwrap_err(), TokenError::LedgerFailure);
}

#[test]
fn mint_to_overflow_fails() {
    let r = mint_to(&sample_mint(), &addr(2), &sample_holding(), &addr(1), u64::MAX - 5);
    assert_eq!(r.unwrap_err(), TokenError::LedgerFailure);
}

#[test]
fn address_comparison() {
    assert!(addr(3).same_as(&addr(3)));
    let mut b = [3u8; 32];
    b[31] = 4;
    assert!(!addr(3).same_as(&Address::new(b)));
}

#[test]
fn created_token_is_found_by_name() {
    let mut ledger = Ledger::new(program());
    create_token(&mut ledger, &request(1, 2), "DOGE2".to_string(), 1_000_000, 6).unwrap();
    let m = ledger.find_token("DOGE2").expect("found");
    assert_eq!(m.meme_name, "DOGE2");
    assert_eq!(m.supply, 1_000_000);
    assert!(ledger.find_token("DOGE3").is_none());
    assert!(ledger.find_token(&"D".repeat(33)).is_none());
}
