use vstd::prelude::*;

use crate::key::Key;

verus! {

/// A value transfer that the runtime must perform in the same atomic unit.
#[derive(Clone, Copy, Debug, PartialEq, Eq)]
pub struct FeeTransfer {
    pub from: Key,
    pub to: Key,
    pub amount: u64,
}

/// A descriptive key/value pair attached to an asset.
#[derive(Clone, Debug, PartialEq, Eq)]
pub struct Attribute {
    pub key: String,
    pub value: String,
}

/// Creation of a shared collection container in the asset registry, with
/// permanent freeze and burn delegation.
#[derive(Clone, Debug, PartialEq, Eq)]
pub struct CollectionCreation {
    pub collection: Key,
    pub payer: Key,
    /// Update authority and holder of both permanent delegations.
    pub authority: Key,
    pub name: String,
    pub uri: String,
}

/// Creation of a vault's asset under its collection.
#[derive(Clone, Debug, PartialEq, Eq)]
pub struct AssetCreation {
    pub asset: Key,
    pub collection: Key,
    /// The program's signing authority.
    pub authority: Key,
    /// Pays for the asset and holds authority over its attributes.
    pub payer: Key,
    pub name: String,
    pub uri: String,
    pub attributes: Vec<Attribute>,
}

/// Burning of a vault's asset.
#[derive(Clone, Copy, Debug, PartialEq, Eq)]
pub struct AssetBurn {
    pub asset: Key,
    pub collection: Key,
    /// The program's signing authority, the collection's burn delegate.
    pub authority: Key,
    pub payer: Key,
}

/// The outside work of a successful mint.
#[derive(Clone, Debug, PartialEq, Eq)]
pub struct MintEffects {
    pub fee: FeeTransfer,
    pub asset: AssetCreation,
}

/// The outside work of a successful claim.
#[derive(Clone, Copy, Debug, PartialEq, Eq)]
pub struct ClaimEffects {
    pub fee: FeeTransfer,
    pub burn: AssetBurn,
}

} // verus!
