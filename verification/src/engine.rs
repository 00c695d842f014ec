//! The listing engine: the per-item state machine from registration through
//! listing, purchase settlement and delisting, plus the configuration
//! lifecycle.
//!
//! Each operation validates everything before it mutates anything, so a
//! failed call leaves the item state and the ledger exactly as they were.
//! The spec functions beside each operation give its guard (`.._ok`), its
//! successor state (`.._next`) and its error (`.._err`); the operation's
//! contract ties its result to them exactly.

use vstd::prelude::*;

use crate::errors::ErrorCode;
use crate::fees::{
    compute_fee_split, fees_consistent, platform_fee_of, royalty_of, seller_amount_of, FeeSplit,
    MAX_FEE_BPS,
};
use crate::ledger::Ledger;
use crate::state::{
    Config, Holder, ItemState, Listing, MintId, PrincipalId, Prompt, PromptCreated,
    PromptDelisted, PromptListed, PromptSold, MAX_URI_BYTES,
};

verus! {

/// Creates the marketplace configuration singleton.  Fails with
/// `InvalidFee` exactly when the fee rate is above the 1000-bps cap; the
/// call site stores the configuration and enforces that only one exists.
pub fn initialize(admin: PrincipalId, fee_bps: u64) -> (r: Result<Config, ErrorCode>)
    ensures
        match r {
            Ok(cfg) => fee_bps <= MAX_FEE_BPS && cfg == (Config { admin, fee_bps }) && cfg.wf(),
            Err(e) => fee_bps > MAX_FEE_BPS && e == ErrorCode::InvalidFee,
        },
{
    if fee_bps > MAX_FEE_BPS {
        return Err(ErrorCode::InvalidFee);
    }
    Ok(Config { admin, fee_bps })
}

/// Destroys the configuration singleton, returning the value its storage
/// held (`reserve`, supplied by the store) to the administrator.  Only the
/// administrator may close it; on failure the ledger is untouched.  The
/// call site removes the singleton on success.
pub fn close_config(config: &Config, caller: PrincipalId, reserve: u64, ledger: &mut Ledger) -> (r:
    Result<(), ErrorCode>)
    requires
        old(ledger).wf(),
    ensures
        final(ledger).wf(),
        match r {
            Ok(()) => {
                &&& caller == config.admin
                &&& old(ledger).bal(config.admin) + reserve <= u64::MAX
                &&& forall|q: PrincipalId|
                    final(ledger).bal(q) == old(ledger).bal(q) + if q == config.admin {
                        reserve as int
                    } else {
                        0
                    }
            },
            Err(e) => {
                &&& *final(ledger) == *old(ledger)
                &&& if caller != config.admin {
                    e == ErrorCode::Unauthorized
                } else {
                    old(ledger).bal(config.admin) + reserve > u64::MAX && e
                        == ErrorCode::ArithmeticError
                }
            },
        },
{
    if caller != config.admin {
        return Err(ErrorCode::Unauthorized);
    }
    ledger.credit(config.admin, reserve)
}

/// Copies a byte vector.
fn copy_bytes(src: &Vec<u8>) -> (r: Vec<u8>)
    ensures
        r@ == src@,
{
    let mut r: Vec<u8> = Vec::new();
    let n = src.len();
    let mut idx: usize = 0;
    while idx < n
        invariant
            n == src@.len(),
            idx <= n,
            r@ =~= src@.take(idx as int),
        decreases n - idx,
    {
        r.push(src[idx]);
        idx = idx + 1;
        proof {
            assert(r@ =~= src@.take(idx as int));
        }
    }
    proof {
        assert(r@ =~= src@);
    }
    r
}

/// Registers an item: mints its single unit under the creator's custody and
/// creates the immutable item record.  Fails with `InvalidRoyalty` when the
/// royalty rate is above the 1000-bps cap, and otherwise with `InvalidUri`
/// when the metadata URI is longer than 200 bytes; both are detected before
/// anything is created.
pub fn create_prompt(
    creator: PrincipalId,
    mint: MintId,
    metadata_uri: Vec<u8>,
    royalty_bps: u64,
) -> (r: Result<(ItemState, PromptCreated), ErrorCode>)
    ensures
        match r {
            Ok((item, ev)) => {
                &&& royalty_bps <= MAX_FEE_BPS
                &&& metadata_uri@.len() <= MAX_URI_BYTES
                &&& item == (ItemState {
                    prompt: Prompt {
                        mint,
                        creator,
                        metadata_uri,
                        royalty_bps,
                        sales: 0,
                        revenue: 0,
                    },
                    custody: Holder::Owner(creator),
                    listing: None,
                })
                &&& item.wf()
                &&& ev.mint == mint && ev.creator == creator && ev.metadata_uri@ == metadata_uri@
            },
            Err(e) => {
                if royalty_bps > MAX_FEE_BPS {
                    e == ErrorCode::InvalidRoyalty
                } else {
                    metadata_uri@.len() > MAX_URI_BYTES && e == ErrorCode::InvalidUri
                }
            },
        },
{
    if royalty_bps > MAX_FEE_BPS {
        return Err(ErrorCode::InvalidRoyalty);
    }
    if metadata_uri.len() > MAX_URI_BYTES {
        return Err(ErrorCode::InvalidUri);
    }
    let uri_copy = copy_bytes(&metadata_uri);
    let item = ItemState {
        prompt: Prompt { mint, creator, metadata_uri, royalty_bps, sales: 0, revenue: 0 },
        custody: Holder::Owner(creator),
        listing: None,
    };
    let ev = PromptCreated { mint, creator, metadata_uri: uri_copy };
    Ok((item, ev))
}

/// Guard of [`list_prompt`]: the price is positive and the seller holds the
/// item's unit.  The custody condition also rules out an active listing,
/// since escrow holds the unit while one exists.
pub open spec fn list_ok(item: ItemState, seller: PrincipalId, price: u64) -> bool {
    price > 0 && item.custody == Holder::Owner(seller)
}

/// Successor state of [`list_prompt`]: the unit moves into escrow and a
/// fresh active listing instance replaces any terminal one.
pub open spec fn list_next(item: ItemState, seller: PrincipalId, price: u64) -> ItemState {
    ItemState {
        custody: Holder::Escrow,
        listing: Some(Listing { mint: item.prompt.mint, seller, price, is_active: true }),
        ..item
    }
}

/// Error of [`list_prompt`] when its guard fails: a zero price is rejected
/// first, then the custody check.
pub open spec fn list_err(item: ItemState, seller: PrincipalId, price: u64) -> ErrorCode {
    if price == 0 {
        ErrorCode::InvalidPrice
    } else {
        ErrorCode::Unauthorized
    }
}

/// Lists an item for sale: moves its unit from the seller into escrow and
/// creates a fresh active listing, as one atomic step.  No value moves.
pub fn list_prompt(item: &mut ItemState, seller: PrincipalId, price: u64) -> (r: Result<
    PromptListed,
    ErrorCode,
>)
    requires
        old(item).wf(),
    ensures
        final(item).wf(),
        match r {
            Ok(ev) => {
                &&& list_ok(*old(item), seller, price)
                &&& *final(item) == list_next(*old(item), seller, price)
                &&& ev == (PromptListed { mint: old(item).prompt.mint, seller, price })
            },
            Err(e) => {
                &&& !list_ok(*old(item), seller, price)
                &&& *final(item) == *old(item)
                &&& e == list_err(*old(item), seller, price)
            },
        },
{
    if price == 0 {
        return Err(ErrorCode::InvalidPrice);
    }
    let holds_it = match item.custody {
        Holder::Owner(p) => p == seller,
        Holder::Escrow => false,
    };
    if !holds_it {
        return Err(ErrorCode::Unauthorized);
    }
    let mint = item.prompt.mint;
    item.custody = Holder::Escrow;
    item.listing = Some(Listing { mint, seller, price, is_active: true });
    Ok(PromptListed { mint, seller, price })
}

/// Guard of [`update_listing`]: the listing is active, the caller is its
/// seller, and the new price is positive.
pub open spec fn update_ok(item: ItemState, caller: PrincipalId, new_price: u64) -> bool {
    &&& item.listing matches Some(l) && l.is_active && l.seller == caller
    &&& new_price > 0
}

/// Successor state of [`update_listing`]: only the price changes.
pub open spec fn update_next(item: ItemState, new_price: u64) -> ItemState {
    match item.listing {
        Some(l) => ItemState { listing: Some(Listing { price: new_price, ..l }), ..item },
        None => item,
    }
}

/// Error of [`update_listing`] when its guard fails, in check order: no
/// active listing, then a caller other than the seller, then a zero price.
pub open spec fn update_err(item: ItemState, caller: PrincipalId, new_price: u64) -> ErrorCode {
    if !item.listing_active() {
        ErrorCode::NotForSale
    } else if !(item.listing matches Some(l) && l.seller == caller) {
        ErrorCode::Unauthorized
    } else {
        ErrorCode::InvalidPrice
    }
}

/// Overwrites the mutable terms of an active listing in place: its price.
/// Only the listing's seller may do so; no custody or value moves.
pub fn update_listing(item: &mut ItemState, caller: PrincipalId, new_price: u64) -> (r: Result<
    (),
    ErrorCode,
>)
    requires
        old(item).wf(),
    ensures
        final(item).wf(),
        match r {
            Ok(()) => {
                &&& update_ok(*old(item), caller, new_price)
                &&& *final(item) == update_next(*old(item), new_price)
            },
            Err(e) => {
                &&& !update_ok(*old(item), caller, new_price)
                &&& *final(item) == *old(item)
                &&& e == update_err(*old(item), caller, new_price)
            },
        },
{
    let l0 = match item.listing {
        Some(l) => l,
        None => {
            return Err(ErrorCode::NotForSale);
        },
    };
    if !l0.is_active {
        return Err(ErrorCode::NotForSale);
    }
    if l0.seller != caller {
        return Err(ErrorCode::Unauthorized);
    }
    if new_price == 0 {
        return Err(ErrorCode::InvalidPrice);
    }
    item.listing = Some(
        Listing { mint: l0.mint, seller: l0.seller, price: new_price, is_active: true },
    );
    Ok(())
}

/// Guard of [`delist_prompt`]: the listing is active and the caller is its
/// seller.
pub open spec fn delist_ok(item: ItemState, caller: PrincipalId) -> bool {
    item.listing matches Some(l) && l.is_active && l.seller == caller
}

/// Successor state of [`delist_prompt`]: custody returns to the seller and
/// the listing instance becomes terminal.
pub open spec fn delist_next(item: ItemState) -> ItemState {
    match item.listing {
        Some(l) => ItemState {
            custody: Holder::Owner(l.seller),
            listing: Some(Listing { is_active: false, ..l }),
            ..item
        },
        None => item,
    }
}

/// Error of [`delist_prompt`] when its guard fails: no active listing comes
/// first, then the seller check.
pub open spec fn delist_err(item: ItemState, caller: PrincipalId) -> ErrorCode {
    if !item.listing_active() {
        ErrorCode::NotForSale
    } else {
        ErrorCode::Unauthorized
    }
}

/// Withdraws an active listing: moves the item's unit from escrow back to
/// the seller and makes the listing instance terminal, as one atomic step.
/// No value moves.
pub fn delist_prompt(item: &mut ItemState, caller: PrincipalId) -> (r: Result<
    PromptDelisted,
    ErrorCode,
>)
    requires
        old(item).wf(),
    ensures
        final(item).wf(),
        match r {
            Ok(ev) => {
                &&& delist_ok(*old(item), caller)
                &&& *final(item) == delist_next(*old(item))
                &&& ev == (PromptDelisted { mint: old(item).prompt.mint })
            },
            Err(e) => {
                &&& !delist_ok(*old(item), caller)
                &&& *final(item) == *old(item)
                &&& e == delist_err(*old(item), caller)
            },
        },
{
    let l0 = match item.listing {
        Some(l) => l,
        None => {
            return Err(ErrorCode::NotForSale);
        },
    };
    if !l0.is_active {
        return Err(ErrorCode::NotForSale);
    }
    if l0.seller != caller {
        return Err(ErrorCode::Unauthorized);
    }
    let mint = item.prompt.mint;
    item.custody = Holder::Owner(l0.seller);
    item.listing = Some(
        Listing { mint: l0.mint, seller: l0.seller, price: l0.price, is_active: false },
    );
    Ok(PromptDelisted { mint })
}

/// What a principal receives out of one settlement, given who plays which
/// role: the seller's amount, the platform fee and the royalty accrue to
/// whoever fills each role, and a principal filling several roles receives
/// each share.
pub open spec fn incoming_of(
    q: PrincipalId,
    seller: PrincipalId,
    admin: PrincipalId,
    creator: PrincipalId,
    s_amt: int,
    fee: int,
    roy: int,
) -> int {
    (if q == seller {
        s_amt
    } else {
        0
    }) + (if q == admin {
        fee
    } else {
        0
    }) + (if q == creator {
        roy
    } else {
        0
    })
}

/// A principal's balance after one settlement: the old balance, minus the
/// price if it is the buyer, plus whatever its roles receive.
pub open spec fn settled_bal(
    l: Ledger,
    q: PrincipalId,
    buyer: PrincipalId,
    seller: PrincipalId,
    admin: PrincipalId,
    creator: PrincipalId,
    s_amt: int,
    fee: int,
    roy: int,
    price: int,
) -> int {
    l.bal(q) - (if q == buyer {
        price
    } else {
        0
    }) + incoming_of(q, seller, admin, creator, s_amt, fee, roy)
}

/// Guard of [`buy_prompt`]: an active listing, a buyer balance covering the
/// price, a fee configuration consistent with the price, room in every
/// recipient's balance for what its roles receive, and room in the item's
/// two bookkeeping counters.
pub open spec fn buy_ok(item: ItemState, cfg: Config, l: Ledger, buyer: PrincipalId) -> bool {
    &&& item.listing matches Some(l0) && l0.is_active && {
        let price = l0.price as int;
        let fee = platform_fee_of(price, cfg.fee_bps as int);
        let roy = royalty_of(price, item.prompt.royalty_bps as int);
        let s_amt = seller_amount_of(price, cfg.fee_bps as int, item.prompt.royalty_bps as int);
        &&& l.bal(buyer) >= price
        &&& fees_consistent(price, cfg.fee_bps as int, item.prompt.royalty_bps as int)
        &&& (l0.seller != buyer ==> l.bal(l0.seller) + incoming_of(
            l0.seller,
            l0.seller,
            cfg.admin,
            item.prompt.creator,
            s_amt,
            fee,
            roy,
        ) <= u64::MAX)
        &&& (cfg.admin != buyer ==> l.bal(cfg.admin) + incoming_of(
            cfg.admin,
            l0.seller,
            cfg.admin,
            item.prompt.creator,
            s_amt,
            fee,
            roy,
        ) <= u64::MAX)
        &&& (item.prompt.creator != buyer ==> l.bal(item.prompt.creator) + incoming_of(
            item.prompt.creator,
            l0.seller,
            cfg.admin,
            item.prompt.creator,
            s_amt,
            fee,
            roy,
        ) <= u64::MAX)
        &&& item.prompt.sales < u64::MAX
        &&& item.prompt.revenue + l0.price <= u64::MAX
    }
}

/// Successor item state of [`buy_prompt`]: the bookkeeping counters
/// advance, custody moves from escrow to the buyer, and the listing
/// instance becomes terminal.
pub open spec fn buy_next_item(item: ItemState, buyer: PrincipalId) -> ItemState {
    match item.listing {
        Some(l) => ItemState {
            prompt: Prompt {
                sales: (item.prompt.sales + 1) as u64,
                revenue: (item.prompt.revenue + l.price) as u64,
                ..item.prompt
            },
            custody: Holder::Owner(buyer),
            listing: Some(Listing { is_active: false, ..l }),
        },
        None => item,
    }
}

/// Error of [`buy_prompt`] when its guard fails, in check order: no active
/// listing, then insufficient buyer funds, then any arithmetic obstacle (an
/// inconsistent fee configuration, a recipient balance that would not fit,
/// or a full bookkeeping counter).
pub open spec fn buy_err(item: ItemState, cfg: Config, l: Ledger, buyer: PrincipalId) -> ErrorCode {
    if !item.listing_active() {
        ErrorCode::NotForSale
    } else if item.listing matches Some(l0) && l.bal(buyer) < l0.price {
        ErrorCode::InsufficientFunds
    } else {
        ErrorCode::ArithmeticError
    }
}

/// What a principal receives out of the settlement now being prepared.
fn incoming_amount(
    q: PrincipalId,
    seller: PrincipalId,
    admin: PrincipalId,
    creator: PrincipalId,
    split: &FeeSplit,
) -> (r: u128)
    ensures
        r as int == incoming_of(
            q,
            seller,
            admin,
            creator,
            split.seller_amount as int,
            split.platform_fee as int,
            split.royalty as int,
        ),
{
    let mut total: u128 = 0;
    if q == seller {
        total = total + split.seller_amount as u128;
    }
    if q == admin {
        total = total + split.platform_fee as u128;
    }
    if q == creator {
        total = total + split.royalty as u128;
    }
    total
}

/// Settles a purchase as one atomic unit: pays the seller's amount, the
/// platform fee and the royalty out of the buyer's balance as three
/// separate transfers (so each payee's receipt is independently
/// observable), moves the item's unit from escrow to the buyer, makes the
/// listing terminal, and advances the item's bookkeeping counters.  Every
/// failure is detected before the first transfer, so a failed purchase
/// changes neither the item state nor any balance, and the listing stays
/// active.
pub fn buy_prompt(
    item: &mut ItemState,
    config: &Config,
    ledger: &mut Ledger,
    buyer: PrincipalId,
) -> (r: Result<PromptSold, ErrorCode>)
    requires
        old(item).wf(),
        old(ledger).wf(),
    ensures
        final(item).wf(),
        final(ledger).wf(),
        match r {
            Ok(ev) => {
                &&& buy_ok(*old(item), *config, *old(ledger), buyer)
                &&& *final(item) == buy_next_item(*old(item), buyer)
                &&& old(item).listing matches Some(l0) && {
                    let price = l0.price as int;
                    let fee = platform_fee_of(price, config.fee_bps as int);
                    let roy = royalty_of(price, old(item).prompt.royalty_bps as int);
                    let s_amt = seller_amount_of(
                        price,
                        config.fee_bps as int,
                        old(item).prompt.royalty_bps as int,
                    );
                    &&& forall|q: PrincipalId|
                        final(ledger).bal(q) == settled_bal(
                            *old(ledger),
                            q,
                            buyer,
                            l0.seller,
                            config.admin,
                            old(item).prompt.creator,
                            s_amt,
                            fee,
                            roy,
                            price,
                        )
                    &&& ev == (PromptSold {
                        mint: old(item).prompt.mint,
                        buyer,
                        seller: l0.seller,
                        price: l0.price,
                    })
                }
            },
            Err(e) => {
                &&& !buy_ok(*old(item), *config, *old(ledger), buyer)
                &&& *final(item) == *old(item)
                &&& *final(ledger) == *old(ledger)
                &&& e == buy_err(*old(item), *config, *old(ledger), buyer)
            },
        },
{
    let l0 = match item.listing {
        Some(l) => l,
        None => {
            return Err(ErrorCode::NotForSale);
        },
    };
    if !l0.is_active {
        return Err(ErrorCode::NotForSale);
    }
    let price = l0.price;
    let buyer_balance = ledger.balance_of(buyer);
    if buyer_balance < price {
        return Err(ErrorCode::InsufficientFunds);
    }
    let split = match compute_fee_split(price, config.fee_bps, item.prompt.royalty_bps) {
        Ok(s) => s,
        Err(e) => {
            return Err(e);
        },
    };
    if item.prompt.sales == u64::MAX {
        return Err(ErrorCode::ArithmeticError);
    }
    if item.prompt.revenue > u64::MAX - price {
        return Err(ErrorCode::ArithmeticError);
    }
    let seller = l0.seller;
    let admin = config.admin;
    let creator = item.prompt.creator;
    if seller != buyer {
        let b = ledger.balance_of(seller);
        if (b as u128) + incoming_amount(seller, seller, admin, creator, &split) > u64::MAX
            as u128 {
            return Err(ErrorCode::ArithmeticError);
        }
    }
    if admin != buyer {
        let b = ledger.balance_of(admin);
        if (b as u128) + incoming_amount(admin, seller, admin, creator, &split) > u64::MAX
            as u128 {
            return Err(ErrorCode::ArithmeticError);
        }
    }
    if creator != buyer {
        let b = ledger.balance_of(creator);
        if (b as u128) + incoming_amount(creator, seller, admin, creator, &split) > u64::MAX
            as u128 {
            return Err(ErrorCode::ArithmeticError);
        }
    }
    let ghost led0 = *ledger;
    let r1 = ledger.transfer(buyer, seller, split.seller_amount);
    match r1 {
        Ok(()) => (),
        Err(_) => {
            proof {
                assert(false);
            }
            return Err(ErrorCode::ArithmeticError);
        },
    }
    let ghost led1 = *ledger;
    let r2 = ledger.transfer(buyer, admin, split.platform_fee);
    match r2 {
        Ok(()) => (),
        Err(_) => {
            proof {
                assert(false);
            }
            return Err(ErrorCode::ArithmeticError);
        },
    }
    let ghost led2 = *ledger;
    let r3 = ledger.transfer(buyer, creator, split.royalty);
    match r3 {
        Ok(()) => (),
        Err(_) => {
            proof {
                assert(false);
            }
            return Err(ErrorCode::ArithmeticError);
        },
    }
    proof {
        assert forall|q: PrincipalId|
            ledger.bal(q) == settled_bal(
                led0,
                q,
                buyer,
                seller,
                admin,
                creator,
                split.seller_amount as int,
                split.platform_fee as int,
                split.royalty as int,
                price as int,
            ) by {
            assert(led1.bal(q) == led0.bal(q) + (if q == seller {
                split.seller_amount as int
            } else {
                0
            }) - (if q == buyer {
                split.seller_amount as int
            } else {
                0
            }));
            assert(led2.bal(q) == led1.bal(q) + (if q == admin {
                split.platform_fee as int
            } else {
                0
            }) - (if q == buyer {
                split.platform_fee as int
            } else {
                0
            }));
            assert(ledger.bal(q) == led2.bal(q) + (if q == creator {
                split.royalty as int
            } else {
                0
            }) - (if q == buyer {
                split.royalty as int
            } else {
                0
            }));
        }
    }
    let new_sales = item.prompt.sales + 1;
    let new_revenue = item.prompt.revenue + price;
    item.prompt.sales = new_sales;
    item.prompt.revenue = new_revenue;
    item.custody = Holder::Owner(buyer);
    item.listing = Some(Listing { mint: l0.mint, seller, price, is_active: false });
    Ok(PromptSold { mint: item.prompt.mint, buyer, seller, price })
}

} // verus!
