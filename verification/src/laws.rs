//! Protocol-level guarantees, each proved once and for all inputs: value
//! conservation across a settlement, reversibility of listing, the exact
//! effect of a purchase on every balance, and re-listing after a terminal
//! listing instance.

use vstd::prelude::*;

use crate::engine::{
    buy_next_item, buy_ok, delist_next, delist_ok, list_next, list_ok, settled_bal,
};
use crate::fees::{
    lemma_fee_amounts_bounded, platform_fee_of, royalty_of, seller_amount_of, MAX_FEE_BPS,
};
use crate::ledger::Ledger;
use crate::state::{Config, Holder, ItemState, PrincipalId};

verus! {

/// Conservation of value: for every positive price and every pair of
/// capped rates, the platform fee, the royalty and the seller's amount are
/// each nonnegative and sum exactly to the price.  Settlement neither
/// creates nor destroys value; the seller's amount absorbs the rounding
/// remainder of the two floor divisions.
pub proof fn lemma_fee_split_conserves(price: u64, fee_bps: u64, royalty_bps: u64)
    requires
        price > 0,
        fee_bps <= MAX_FEE_BPS,
        royalty_bps <= MAX_FEE_BPS,
    ensures
        platform_fee_of(price as int, fee_bps as int) + royalty_of(
            price as int,
            royalty_bps as int,
        ) + seller_amount_of(price as int, fee_bps as int, royalty_bps as int) == price,
        0 <= platform_fee_of(price as int, fee_bps as int),
        0 <= royalty_of(price as int, royalty_bps as int),
        0 <= seller_amount_of(price as int, fee_bps as int, royalty_bps as int),
{
    lemma_fee_amounts_bounded(price as int, fee_bps as int, royalty_bps as int);
}

/// Listing an item and then immediately delisting it restores custody to
/// the original seller, leaves the item record unchanged, and leaves the
/// listing terminal.  Neither operation takes the ledger, so no balance
/// can change.
pub proof fn lemma_list_then_delist(item: ItemState, seller: PrincipalId, price: u64)
    requires
        item.wf(),
        list_ok(item, seller, price),
    ensures
        delist_ok(list_next(item, seller, price), seller),
        delist_next(list_next(item, seller, price)).custody == item.custody,
        delist_next(list_next(item, seller, price)).custody == Holder::Owner(seller),
        delist_next(list_next(item, seller, price)).prompt == item.prompt,
        !delist_next(list_next(item, seller, price)).listing_active(),
{
}

/// A purchase of a freshly listed item makes the listing terminal and
/// moves custody to the buyer; when buyer, seller, administrator and
/// creator are four distinct principals, it changes their balances exactly
/// once each — the buyer pays the price, and the seller, the administrator
/// and the creator receive the seller's amount, the platform fee and the
/// royalty respectively — and no other principal's balance changes at all.
pub proof fn lemma_list_then_purchase(
    item: ItemState,
    cfg: Config,
    ledger: Ledger,
    seller: PrincipalId,
    price: u64,
    buyer: PrincipalId,
)
    requires
        item.wf(),
        list_ok(item, seller, price),
        buy_ok(list_next(item, seller, price), cfg, ledger, buyer),
        seller != buyer,
        cfg.admin != buyer,
        cfg.admin != seller,
        item.prompt.creator != buyer,
        item.prompt.creator != seller,
        item.prompt.creator != cfg.admin,
    ensures
        ({
            let after = buy_next_item(list_next(item, seller, price), buyer);
            let fee = platform_fee_of(price as int, cfg.fee_bps as int);
            let roy = royalty_of(price as int, item.prompt.royalty_bps as int);
            let s_amt = seller_amount_of(
                price as int,
                cfg.fee_bps as int,
                item.prompt.royalty_bps as int,
            );
            &&& after.listing matches Some(l) && !l.is_active
            &&& !after.listing_active()
            &&& after.custody == Holder::Owner(buyer)
            &&& after.prompt.sales == item.prompt.sales + 1
            &&& after.prompt.revenue == item.prompt.revenue + price
            &&& s_amt + fee + roy == price
            &&& settled_bal(
                ledger,
                buyer,
                buyer,
                seller,
                cfg.admin,
                item.prompt.creator,
                s_amt,
                fee,
                roy,
                price as int,
            ) == ledger.bal(buyer) - price
            &&& settled_bal(
                ledger,
                seller,
                buyer,
                seller,
                cfg.admin,
                item.prompt.creator,
                s_amt,
                fee,
                roy,
                price as int,
            ) == ledger.bal(seller) + s_amt
            &&& settled_bal(
                ledger,
                cfg.admin,
                buyer,
                seller,
                cfg.admin,
                item.prompt.creator,
                s_amt,
                fee,
                roy,
                price as int,
            ) == ledger.bal(cfg.admin) + fee
            &&& settled_bal(
                ledger,
                item.prompt.creator,
                buyer,
                seller,
                cfg.admin,
                item.prompt.creator,
                s_amt,
                fee,
                roy,
                price as int,
            ) == ledger.bal(item.prompt.creator) + roy
            &&& forall|q: PrincipalId|
                q != buyer && q != seller && q != cfg.admin && q != item.prompt.creator
                    ==> settled_bal(
                    ledger,
                    q,
                    buyer,
                    seller,
                    cfg.admin,
                    item.prompt.creator,
                    s_amt,
                    fee,
                    roy,
                    price as int,
                ) == ledger.bal(q)
        }),
{
}

/// Re-listing after a delisting: the seller, holding the unit again, can
/// immediately list the item afresh at any positive price, and doing so
/// starts a new active instance with the new terms, independent of the
/// terminal one.
pub proof fn lemma_relist_after_delist(
    item: ItemState,
    seller: PrincipalId,
    price: u64,
    new_price: u64,
)
    requires
        item.wf(),
        list_ok(item, seller, price),
        new_price > 0,
    ensures
        list_ok(delist_next(list_next(item, seller, price)), seller, new_price),
        ({
            let relisted = list_next(delist_next(list_next(item, seller, price)), seller, new_price);
            &&& relisted.listing matches Some(l)
            &&& l.is_active
            &&& l.price == new_price
            &&& l.seller == seller
        }),
{
}

/// Re-listing after a completed purchase: the buyer, now the custodian,
/// can immediately list the item afresh at any positive price, and doing
/// so starts a new active instance with the new terms, independent of the
/// terminal one.
pub proof fn lemma_relist_after_purchase(
    item: ItemState,
    cfg: Config,
    ledger: Ledger,
    seller: PrincipalId,
    price: u64,
    buyer: PrincipalId,
    new_price: u64,
)
    requires
        item.wf(),
        list_ok(item, seller, price),
        buy_ok(list_next(item, seller, price), cfg, ledger, buyer),
        new_price > 0,
    ensures
        list_ok(buy_next_item(list_next(item, seller, price), buyer), buyer, new_price),
        ({
            let relisted = list_next(
                buy_next_item(list_next(item, seller, price), buyer),
                buyer,
                new_price,
            );
            &&& relisted.listing matches Some(l)
            &&& l.is_active
            &&& l.price == new_price
            &&& l.seller == buyer
        }),
{
}

} // verus!
