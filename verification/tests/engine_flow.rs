//! End-to-end scenarios for the listing engine: the full lifecycle of an
//! item through listing, purchase settlement, delisting and re-listing,
//! and every refusal the engine can answer with.

use prompt_marketplace::engine::{
    buy_prompt, close_config, create_prompt, delist_prompt, initialize, list_prompt,
    update_listing,
};
use prompt_marketplace::errors::ErrorCode;
use prompt_marketplace::ledger::Ledger;
use prompt_marketplace::state::{Holder, ItemState};

const ADMIN: u64 = 1;
const CREATOR: u64 = 2;
const SELLER: u64 = 3;
const BUYER: u64 = 4;
const MINT: u64 = 77;

/// A registered item held by `SELLER`, with a 2.5% royalty for `CREATOR`.
fn seller_owned_item() -> ItemState {
    let (mut item, _) = create_prompt(CREATOR, MINT, b"ipfs://prompt".to_vec(), 250).unwrap();
    item.custody = Holder::Owner(SELLER);
    item
}

fn funded_ledger() -> Ledger {
    let mut ledger = Ledger::new();
    ledger.credit(BUYER, 1_000).unwrap();
    ledger
}

#[test]
fn initialize_accepts_fee_at_cap() {
    let cfg = initialize(ADMIN, 1000).unwrap();
    assert_eq!(cfg.admin, ADMIN);
    assert_eq!(cfg.fee_bps, 1000);
}

#[test]
fn initialize_rejects_fee_above_cap() {
    assert_eq!(initialize(ADMIN, 1001).unwrap_err(), ErrorCode::InvalidFee);
}

#[test]
fn close_config_requires_admin() {
    let cfg = initialize(ADMIN, 500).unwrap();
    let mut ledger = Ledger::new();
    assert_eq!(
        close_config(&cfg, BUYER, 10, &mut ledger).unwrap_err(),
        ErrorCode::Unauthorized
    );
    assert_eq!(ledger.balance_of(ADMIN), 0);
}

#[test]
fn close_config_returns_reserve_to_admin() {
    let cfg = initialize(ADMIN, 500).unwrap();
    let mut ledger = Ledger::new();
    close_config(&cfg, ADMIN, 10, &mut ledger).unwrap();
    assert_eq!(ledger.balance_of(ADMIN), 10);
}

#[test]
fn create_prompt_registers_item_under_creator_custody() {
    let (item, ev) = create_prompt(CREATOR, MINT, b"ipfs://prompt".to_vec(), 250).unwrap();
    assert_eq!(item.prompt.mint, MINT);
    assert_eq!(item.prompt.creator, CREATOR);
    assert_eq!(item.prompt.metadata_uri, b"ipfs://prompt".to_vec());
    assert_eq!(item.prompt.royalty_bps, 250);
    assert_eq!(item.prompt.sales, 0);
    assert_eq!(item.prompt.revenue, 0);
    assert_eq!(item.custody, Holder::Owner(CREATOR));
    assert_eq!(item.listing, None);
    assert!(item.is_wf());
    assert_eq!(ev.mint, MINT);
    assert_eq!(ev.creator, CREATOR);
    assert_eq!(ev.metadata_uri, b"ipfs://prompt".to_vec());
}

#[test]
fn create_prompt_rejects_royalty_above_cap() {
    let r = create_prompt(CREATOR, MINT, b"u".to_vec(), 1001);
    assert_eq!(r.unwrap_err(), ErrorCode::InvalidRoyalty);
}

#[test]
fn create_prompt_accepts_uri_at_limit_and_rejects_longer() {
    assert!(create_prompt(CREATOR, MINT, vec![b'x'; 200], 0).is_ok());
    let r = create_prompt(CREATOR, MINT, vec![b'x'; 201], 0);
    assert_eq!(r.unwrap_err(), ErrorCode::InvalidUri);
}

#[test]
fn list_prompt_moves_custody_into_escrow() {
    let mut item = seller_owned_item();
    let ev = list_prompt(&mut item, SELLER, 1_000).unwrap();
    assert_eq!(item.custody, Holder::Escrow);
    let l = item.listing.unwrap();
    assert!(l.is_active);
    assert_eq!(l.seller, SELLER);
    assert_eq!(l.price, 1_000);
    assert_eq!(l.mint, MINT);
    assert_eq!(ev.mint, MINT);
    assert_eq!(ev.seller, SELLER);
    assert_eq!(ev.price, 1_000);
    assert!(item.is_wf());
}

#[test]
fn list_prompt_rejects_zero_price() {
    let mut item = seller_owned_item();
    assert_eq!(
        list_prompt(&mut item, SELLER, 0).unwrap_err(),
        ErrorCode::InvalidPrice
    );
    assert_eq!(item.custody, Holder::Owner(SELLER));
}

#[test]
fn list_prompt_requires_custody() {
    let mut item = seller_owned_item();
    assert_eq!(
        list_prompt(&mut item, BUYER, 1_000).unwrap_err(),
        ErrorCode::Unauthorized
    );
    assert_eq!(item.custody, Holder::Owner(SELLER));
    assert_eq!(item.listing, None);
}

#[test]
fn list_prompt_refuses_second_listing_while_active() {
    let mut item = seller_owned_item();
    list_prompt(&mut item, SELLER, 1_000).unwrap();
    // Escrow holds the unit now, so even the seller cannot list again.
    assert_eq!(
        list_prompt(&mut item, SELLER, 2_000).unwrap_err(),
        ErrorCode::Unauthorized
    );
}

#[test]
fn update_listing_overwrites_price_in_place() {
    let mut item = seller_owned_item();
    list_prompt(&mut item, SELLER, 1_000).unwrap();
    update_listing(&mut item, SELLER, 2_500).unwrap();
    let l = item.listing.unwrap();
    assert!(l.is_active);
    assert_eq!(l.price, 2_500);
    assert_eq!(item.custody, Holder::Escrow);
}

#[test]
fn update_listing_requires_seller() {
    let mut item = seller_owned_item();
    list_prompt(&mut item, SELLER, 1_000).unwrap();
    assert_eq!(
        update_listing(&mut item, BUYER, 2_500).unwrap_err(),
        ErrorCode::Unauthorized
    );
    assert_eq!(item.listing.unwrap().price, 1_000);
}

#[test]
fn update_listing_requires_active_listing() {
    let mut item = seller_owned_item();
    assert_eq!(
        update_listing(&mut item, SELLER, 2_500).unwrap_err(),
        ErrorCode::NotForSale
    );
}

#[test]
fn update_listing_rejects_zero_price() {
    let mut item = seller_owned_item();
    list_prompt(&mut item, SELLER, 1_000).unwrap();
    assert_eq!(
        update_listing(&mut item, SELLER, 0).unwrap_err(),
        ErrorCode::InvalidPrice
    );
    assert_eq!(item.listing.unwrap().price, 1_000);
}

/// The concrete settlement scenario: a 5% platform fee and a 2.5% royalty
/// on a price of 1000 pay out 50, 25 and 925, the buyer's balance falls by
/// the full price, and custody moves to the buyer.
#[test]
fn purchase_settles_three_way_split() {
    let cfg = initialize(ADMIN, 500).unwrap();
    let mut item = seller_owned_item();
    let mut ledger = funded_ledger();
    list_prompt(&mut item, SELLER, 1_000).unwrap();

    let ev = buy_prompt(&mut item, &cfg, &mut ledger, BUYER).unwrap();

    assert_eq!(ledger.balance_of(BUYER), 0);
    assert_eq!(ledger.balance_of(SELLER), 925);
    assert_eq!(ledger.balance_of(ADMIN), 50);
    assert_eq!(ledger.balance_of(CREATOR), 25);
    assert_eq!(item.custody, Holder::Owner(BUYER));
    let l = item.listing.unwrap();
    assert!(!l.is_active);
    assert_eq!(item.prompt.sales, 1);
    assert_eq!(item.prompt.revenue, 1_000);
    assert_eq!(ev.mint, MINT);
    assert_eq!(ev.buyer, BUYER);
    assert_eq!(ev.seller, SELLER);
    assert_eq!(ev.price, 1_000);
    assert!(item.is_wf());
}

#[test]
fn purchase_of_unlisted_item_fails_not_for_sale() {
    let cfg = initialize(ADMIN, 500).unwrap();
    let mut item = seller_owned_item();
    let mut ledger = funded_ledger();
    assert_eq!(
        buy_prompt(&mut item, &cfg, &mut ledger, BUYER).unwrap_err(),
        ErrorCode::NotForSale
    );
    assert_eq!(ledger.balance_of(BUYER), 1_000);
    assert_eq!(item.custody, Holder::Owner(SELLER));
}

/// An inactive listing is terminal: purchasing it fails with `NotForSale`
/// and changes nothing.
#[test]
fn purchase_of_inactive_listing_fails_not_for_sale() {
    let cfg = initialize(ADMIN, 500).unwrap();
    let mut item = seller_owned_item();
    let mut ledger = funded_ledger();
    list_prompt(&mut item, SELLER, 1_000).unwrap();
    delist_prompt(&mut item, SELLER).unwrap();

    let before = item.clone();
    assert_eq!(
        buy_prompt(&mut item, &cfg, &mut ledger, BUYER).unwrap_err(),
        ErrorCode::NotForSale
    );
    assert_eq!(item, before);
    assert_eq!(ledger.balance_of(BUYER), 1_000);
    assert_eq!(ledger.balance_of(SELLER), 0);
    assert_eq!(ledger.balance_of(ADMIN), 0);
    assert_eq!(ledger.balance_of(CREATOR), 0);
}

#[test]
fn purchase_with_insufficient_funds_fails_and_keeps_listing_active() {
    let cfg = initialize(ADMIN, 500).unwrap();
    let mut item = seller_owned_item();
    let mut ledger = Ledger::new();
    ledger.credit(BUYER, 999).unwrap();
    list_prompt(&mut item, SELLER, 1_000).unwrap();
    assert_eq!(
        buy_prompt(&mut item, &cfg, &mut ledger, BUYER).unwrap_err(),
        ErrorCode::InsufficientFunds
    );
    assert!(item.listing.unwrap().is_active);
    assert_eq!(ledger.balance_of(BUYER), 999);
}

/// An inconsistent fee configuration (rate far above the cap, possible only
/// when the configuration record was corrupted) aborts before any transfer.
#[test]
fn purchase_with_inconsistent_fee_config_fails_arithmetic() {
    let cfg = prompt_marketplace::state::Config { admin: ADMIN, fee_bps: 20_000 };
    let mut item = seller_owned_item();
    let mut ledger = funded_ledger();
    list_prompt(&mut item, SELLER, 1_000).unwrap();
    assert_eq!(
        buy_prompt(&mut item, &cfg, &mut ledger, BUYER).unwrap_err(),
        ErrorCode::ArithmeticError
    );
    assert_eq!(ledger.balance_of(BUYER), 1_000);
    assert!(item.listing.unwrap().is_active);
}

#[test]
fn purchase_fails_when_recipient_balance_would_overflow() {
    let cfg = initialize(ADMIN, 500).unwrap();
    let mut item = seller_owned_item();
    let mut ledger = funded_ledger();
    ledger.credit(SELLER, u64::MAX).unwrap();
    list_prompt(&mut item, SELLER, 1_000).unwrap();
    assert_eq!(
        buy_prompt(&mut item, &cfg, &mut ledger, BUYER).unwrap_err(),
        ErrorCode::ArithmeticError
    );
    assert_eq!(ledger.balance_of(BUYER), 1_000);
    assert_eq!(ledger.balance_of(SELLER), u64::MAX);
    assert!(item.listing.unwrap().is_active);
}

/// One principal may fill several roles: a seller who is also the creator
/// receives both the seller's amount and the royalty.
#[test]
fn purchase_pays_each_role_even_when_seller_is_creator() {
    let cfg = initialize(ADMIN, 500).unwrap();
    let (mut item, _) = create_prompt(SELLER, MINT, b"u".to_vec(), 250).unwrap();
    let mut ledger = funded_ledger();
    list_prompt(&mut item, SELLER, 1_000).unwrap();
    buy_prompt(&mut item, &cfg, &mut ledger, BUYER).unwrap();
    assert_eq!(ledger.balance_of(SELLER), 925 + 25);
    assert_eq!(ledger.balance_of(ADMIN), 50);
    assert_eq!(ledger.balance_of(BUYER), 0);
}

/// A buyer repurchasing its own listing nets out to paying only the fees.
#[test]
fn purchase_by_the_seller_nets_only_the_fees() {
    let cfg = initialize(ADMIN, 500).unwrap();
    let mut item = seller_owned_item();
    let mut ledger = Ledger::new();
    ledger.credit(SELLER, 1_000).unwrap();
    list_prompt(&mut item, SELLER, 1_000).unwrap();
    buy_prompt(&mut item, &cfg, &mut ledger, SELLER).unwrap();
    assert_eq!(ledger.balance_of(SELLER), 1_000 - 50 - 25);
    assert_eq!(ledger.balance_of(ADMIN), 50);
    assert_eq!(ledger.balance_of(CREATOR), 25);
    assert_eq!(item.custody, Holder::Owner(SELLER));
}

/// Listing then immediately delisting restores custody to the seller and
/// leaves every balance untouched.
#[test]
fn delist_restores_custody_and_balances() {
    let mut item = seller_owned_item();
    let mut ledger = funded_ledger();
    list_prompt(&mut item, SELLER, 1_000).unwrap();
    let ev = delist_prompt(&mut item, SELLER).unwrap();
    assert_eq!(ev.mint, MINT);
    assert_eq!(item.custody, Holder::Owner(SELLER));
    let l = item.listing.unwrap();
    assert!(!l.is_active);
    assert_eq!(item.prompt.sales, 0);
    assert_eq!(item.prompt.revenue, 0);
    assert_eq!(ledger.balance_of(BUYER), 1_000);
    assert_eq!(ledger.balance_of(SELLER), 0);
    assert!(item.is_wf());
}

#[test]
fn delist_requires_seller() {
    let mut item = seller_owned_item();
    list_prompt(&mut item, SELLER, 1_000).unwrap();
    assert_eq!(
        delist_prompt(&mut item, BUYER).unwrap_err(),
        ErrorCode::Unauthorized
    );
    assert!(item.listing.unwrap().is_active);
}

#[test]
fn delist_requires_active_listing() {
    let mut item = seller_owned_item();
    assert_eq!(
        delist_prompt(&mut item, SELLER).unwrap_err(),
        ErrorCode::NotForSale
    );
}

/// After a delisting, a fresh listing for the same item starts a new
/// active instance with the new terms.
#[test]
fn relist_after_delist_starts_fresh_instance() {
    let mut item = seller_owned_item();
    list_prompt(&mut item, SELLER, 1_000).unwrap();
    delist_prompt(&mut item, SELLER).unwrap();
    list_prompt(&mut item, SELLER, 2_000).unwrap();
    let l = item.listing.unwrap();
    assert!(l.is_active);
    assert_eq!(l.price, 2_000);
    assert_eq!(l.seller, SELLER);
    assert_eq!(item.custody, Holder::Escrow);
}

/// After a completed purchase, the buyer owns the unit and can list it
/// afresh; the new instance is independent of the terminal one.
#[test]
fn relist_after_purchase_starts_fresh_instance() {
    let cfg = initialize(ADMIN, 500).unwrap();
    let mut item = seller_owned_item();
    let mut ledger = funded_ledger();
    list_prompt(&mut item, SELLER, 1_000).unwrap();
    buy_prompt(&mut item, &cfg, &mut ledger, BUYER).unwrap();
    list_prompt(&mut item, BUYER, 3_000).unwrap();
    let l = item.listing.unwrap();
    assert!(l.is_active);
    assert_eq!(l.price, 3_000);
    assert_eq!(l.seller, BUYER);
    assert_eq!(item.custody, Holder::Escrow);
}
