//! Identifier and amount types of the gateway.
//!
//! At this layer every identifier is an opaque fixed-width binary value
//! with value equality and no computed structure; the model carries each
//! as one machine word. Amounts and block numbers are plain unsigned
//! integers in the ledger's native unit.

use vstd::prelude::*;

verus! {

/// Identifies a participant or a system-owned account (ledger, wallet
/// registry, pool, pay resolver).
#[derive(Clone, Copy, Debug, PartialEq, Eq, Structural)]
pub struct AccountId(pub u64);

/// An opaque content- or registration-derived digest. Channel ids, wallet
/// ids, pay hashes and pay ids are all values of this type.
#[derive(Clone, Copy, Debug, PartialEq, Eq, Structural)]
pub struct HashValue(pub u64);

/// A non-negative amount in the ledger's native unit.
pub type Balance = u128;

/// A point in the state machine's history; also the snapshot index.
pub type BlockNumber = u64;

} // verus!
