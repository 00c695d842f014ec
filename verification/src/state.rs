//! The data model: the configuration singleton, the item record, the
//! listing record, custody of each item's single unit, and the
//! notifications that successful operations emit.

use vstd::prelude::*;

use crate::fees::MAX_FEE_BPS;

verus! {

broadcast use vstd::array::group_array_axioms;

/// An authenticated actor (buyer, seller, creator or administrator),
/// identified by a unique identity.
pub type PrincipalId = u64;

/// The identity of one uniquely-owned item, derived deterministically from
/// the underlying token identity by the host environment.
pub type MintId = u64;

/// Longest allowed metadata URI, in bytes.
pub const MAX_URI_BYTES: usize = 200;

/// Who holds the single unit of an item's custody.
#[derive(Clone, Copy, Debug, PartialEq, Eq, Structural)]
pub enum Holder {
    /// A principal holds the unit directly.
    Owner(PrincipalId),
    /// The protocol's escrow identity holds the unit.  The escrow identity
    /// is derived from the item identity and has no independent authority:
    /// only the listing engine moves a unit out of it, so escrow custody is
    /// a structural property of the call path, not a principal.
    Escrow,
}

/// The marketplace configuration singleton: who administers the platform
/// and what cut it takes of every sale.  Created once by [`initialize`] and
/// destroyed only by [`close_config`]; the call site enforces that at most
/// one exists.
///
/// [`initialize`]: crate::engine::initialize
/// [`close_config`]: crate::engine::close_config
#[derive(Clone, Copy, Debug, PartialEq, Eq, Structural)]
pub struct Config {
    /// The platform administrator: the only principal allowed to close the
    /// configuration, and the recipient of every platform fee.
    pub admin: PrincipalId,
    /// The platform fee rate in basis points.
    pub fee_bps: u64,
}

impl Config {
    /// The platform fee rate respects the hard cap of 10%.
    pub open spec fn wf(self) -> bool {
        self.fee_bps <= MAX_FEE_BPS
    }
}

/// The item record: one per registered item, created exactly once and
/// immutable afterward except for the two bookkeeping counters, which only
/// purchase settlement advances.
#[derive(Clone, Debug, PartialEq, Eq)]
pub struct Prompt {
    /// The item this record describes.
    pub mint: MintId,
    /// The original creator, set once; every sale pays this principal the
    /// royalty.
    pub creator: PrincipalId,
    /// Immutable descriptive metadata, at most 200 bytes.
    pub metadata_uri: Vec<u8>,
    /// The royalty rate in basis points, set once at creation.
    pub royalty_bps: u64,
    /// How many purchases of this item have settled.
    pub sales: u64,
    /// The sum of the prices of those purchases.
    pub revenue: u64,
}

/// A listing record: the latest listing instance for one item.  `is_active`
/// flips to `false` exactly once, on purchase or on delisting; an inactive
/// instance is terminal, and re-listing replaces it with a fresh one.
#[derive(Clone, Copy, Debug, PartialEq, Eq, Structural)]
pub struct Listing {
    /// The item being sold.
    pub mint: MintId,
    /// The principal that listed the item and receives the seller's share.
    pub seller: PrincipalId,
    /// The asking price; always positive while the listing is active.
    pub price: u64,
    /// Whether the item is currently for sale, with its unit in escrow.
    pub is_active: bool,
}

/// The SHA-256 digest of a byte sequence, as the host chain's hashing
/// primitive computes it.  Left uninterpreted: the digest is a function of
/// the input bytes alone.
pub uninterp spec fn sha256_of(bytes: Seq<u8>) -> Seq<u8>;

/// Relies on `anchor_lang::solana_program::hash::hash`: the SHA-256 digest
/// of the input bytes, 32 bytes long, depending on the input bytes alone.
#[verifier::external_body]
fn sha256_digest(bytes: &[u8]) -> (r: [u8; 32])
    ensures
        r@ == sha256_of(bytes@),
{
    anchor_lang::solana_program::hash::hash(bytes).to_bytes()
}

/// The byte tag that names the listing record type in account storage: the
/// ASCII bytes of `account:Listing`.
pub open spec fn listing_account_tag() -> Seq<u8> {
    seq![97u8, 99u8, 99u8, 111u8, 117u8, 110u8, 116u8, 58u8, 76u8, 105u8, 115u8, 116u8, 105u8, 110u8, 103u8]
}

impl Listing {
    /// The eight-byte tag that prefixes every stored listing record: the
    /// first eight bytes of the SHA-256 digest of `account:Listing`.
    pub fn discriminator() -> (r: [u8; 8])
        ensures
            r@ == sha256_of(listing_account_tag()).take(8),
    {
        let mut tag: Vec<u8> = Vec::new();
        tag.push(97u8);
        tag.push(99u8);
        tag.push(99u8);
        tag.push(111u8);
        tag.push(117u8);
        tag.push(110u8);
        tag.push(116u8);
        tag.push(58u8);
        tag.push(76u8);
        tag.push(105u8);
        tag.push(115u8);
        tag.push(116u8);
        tag.push(105u8);
        tag.push(110u8);
        tag.push(103u8);
        proof {
            assert(tag@ =~= listing_account_tag());
        }
        let h = sha256_digest(tag.as_slice());
        let r: [u8; 8] = [h[0], h[1], h[2], h[3], h[4], h[5], h[6], h[7]];
        proof {
            assert(r@ =~= sha256_of(listing_account_tag()).take(8));
        }
        r
    }
}

/// The whole protocol-owned state of one item: its immutable record, who
/// holds its single unit, and the latest listing instance, if any.
#[derive(Clone, Debug, PartialEq, Eq)]
pub struct ItemState {
    /// The item record.
    pub prompt: Prompt,
    /// Who holds the item's single unit.
    pub custody: Holder,
    /// The latest listing instance for the item, if one was ever created.
    pub listing: Option<Listing>,
}

impl ItemState {
    /// The invariant every engine operation preserves: the record is valid,
    /// any listing is for this item, an active listing has a positive price,
    /// and the escrow identity holds the unit exactly while a listing is
    /// active.
    pub open spec fn wf(self) -> bool {
        &&& self.prompt.royalty_bps <= MAX_FEE_BPS
        &&& self.prompt.metadata_uri@.len() <= MAX_URI_BYTES
        &&& match self.listing {
            Some(l) => {
                &&& l.mint == self.prompt.mint
                &&& (l.is_active ==> l.price > 0)
                &&& (l.is_active <==> self.custody is Escrow)
            },
            None => !(self.custody is Escrow),
        }
    }

    /// Whether the latest listing instance exists and is active.
    pub open spec fn listing_active(self) -> bool {
        self.listing matches Some(l) && l.is_active
    }

    /// Decides [`Self::wf`] at run time, so an unverified caller can test
    /// the invariant before handing a state it assembled itself to the
    /// engine.
    pub fn is_wf(&self) -> (r: bool)
        ensures
            r == self.wf(),
    {
        let record_ok = self.prompt.royalty_bps <= MAX_FEE_BPS && self.prompt.metadata_uri.len()
            <= MAX_URI_BYTES;
        let listing_ok = match &self.listing {
            Some(l) => l.mint == self.prompt.mint && (!l.is_active || l.price > 0) && (l.is_active
                == (self.custody == Holder::Escrow)),
            None => !(self.custody == Holder::Escrow),
        };
        record_ok && listing_ok
    }
}

/// Emitted when an item is registered.
#[derive(Clone, Debug, PartialEq, Eq)]
pub struct PromptCreated {
    pub mint: MintId,
    pub creator: PrincipalId,
    pub metadata_uri: Vec<u8>,
}

/// Emitted when an item is listed for sale.
#[derive(Clone, Copy, Debug, PartialEq, Eq, Structural)]
pub struct PromptListed {
    pub mint: MintId,
    pub seller: PrincipalId,
    pub price: u64,
}

/// Emitted when a purchase settles; this is the settlement receipt.
#[derive(Clone, Copy, Debug, PartialEq, Eq, Structural)]
pub struct PromptSold {
    pub mint: MintId,
    pub buyer: PrincipalId,
    pub seller: PrincipalId,
    pub price: u64,
}

/// Emitted when a listing is withdrawn.
#[derive(Clone, Copy, Debug, PartialEq, Eq, Structural)]
pub struct PromptDelisted {
    pub mint: MintId,
}

} // verus!
