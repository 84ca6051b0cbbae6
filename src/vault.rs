use vstd::prelude::*;

use crate::key::Key;

verus! {

/// The record of one external token's vault. Its address is the address of
/// its asset, derived from the collection and the token identifier.
#[derive(Clone, Debug)]
pub struct Vault {
    /// Who paid for the mint.
    pub owner: Key,
    pub external_token_id: String,
    pub is_minted: bool,
    pub is_claimed: bool,
    /// Who claimed the vault, once it is claimed.
    pub claimer: Option<Key>,
    /// Address of the asset, which is also the vault's address.
    pub asset: Key,
}

/// What a `Vault` holds.
pub struct VaultView {
    pub owner: Seq<u8>,
    pub external_token_id: Seq<char>,
    pub is_minted: bool,
    pub is_claimed: bool,
    pub claimer: Option<Seq<u8>>,
    pub asset: Seq<u8>,
}

impl View for Vault {
    type V = VaultView;

    open spec fn view(&self) -> VaultView {
        VaultView {
            owner: self.owner@,
            external_token_id: self.external_token_id@,
            is_minted: self.is_minted,
            is_claimed: self.is_claimed,
            claimer: match self.claimer {
                Some(c) => Some(c@),
                None => None,
            },
            asset: self.asset@,
        }
    }
}

/// One shared container of vault assets, with its freeze and burn
/// delegation held by the program's authority.
#[derive(Clone, Debug)]
pub struct Collection {
    pub address: Key,
    pub name: String,
    pub uri: String,
    /// Holder of the permanent freeze and burn delegation.
    pub delegate: Key,
}

/// What a `Collection` holds.
pub struct CollectionView {
    pub address: Seq<u8>,
    pub name: Seq<char>,
    pub uri: Seq<char>,
    pub delegate: Seq<u8>,
}

impl View for Collection {
    type V = CollectionView;

    open spec fn view(&self) -> CollectionView {
        CollectionView {
            address: self.address@,
            name: self.name@,
            uri: self.uri@,
            delegate: self.delegate@,
        }
    }
}

} // verus!
