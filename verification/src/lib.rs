//! An escrow-mediated marketplace for uniquely-owned digital items
//! ("prompts"), each represented by a single non-fungible unit.
//!
//! The core is the listing engine: a per-item state machine that takes an
//! item from creation through listing (custody moves into a protocol-held
//! escrow), atomic purchase settlement (a three-way split of the price among
//! seller, platform administrator and original creator), and reversible
//! delisting.  Value movement is modelled by an explicit [`ledger::Ledger`];
//! custody of the single unit of each item is modelled by
//! [`state::Holder`].  Every operation either fully commits or fails with
//! no state change.

pub mod engine;
pub mod errors;
pub mod fees;
pub mod laws;
pub mod ledger;
pub mod state;
