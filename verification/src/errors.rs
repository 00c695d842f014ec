//! The error taxonomy of the marketplace protocol.

use vstd::prelude::*;

verus! {

/// Why a marketplace operation was refused.  Every operation detects its
/// errors before any state change, so a failed call leaves every record and
/// every balance exactly as it was.
#[derive(Clone, Copy, Debug, PartialEq, Eq, Structural)]
pub enum ErrorCode {
    /// A platform fee rate above the hard cap of 1000 basis points (10%).
    InvalidFee,
    /// A royalty rate above the hard cap of 1000 basis points (10%).
    InvalidRoyalty,
    /// A metadata URI longer than 200 bytes.
    InvalidUri,
    /// A listing price of zero.
    InvalidPrice,
    /// The operation needs an active listing, but none exists for the item.
    NotForSale,
    /// The buyer's balance is below the listing price.
    InsufficientFunds,
    /// The caller lacks the required authority (not the administrator, not
    /// the seller, or not the current custodian of the item).
    Unauthorized,
    /// Settlement arithmetic would leave a range: the two fee amounts
    /// together exceed the price (an inconsistent fee configuration), or a
    /// balance or counter would overflow.
    ArithmeticError,
}

} // verus!
