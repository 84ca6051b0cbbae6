//! Issuance and redemption of vault records that wrap an off-ledger token
//! identifier, gated by an off-ledger signer's approval.
//!
//! The library holds the protocol's logic over plain values: deterministic
//! addressing, the program's configuration, the check of the signer's
//! approval, and the vault lifecycle (`Uninitialized -> Minted -> Claimed`).
//! An operation either fails and leaves the [`Ledger`] as it was, or
//! updates it and returns the outside work (fee transfer, asset creation or
//! burn) that the runtime performs within the same atomic unit.

mod address;
mod approval;
mod effects;
pub mod emblem_vault_solana;
mod error;
mod key;
pub mod laws;
mod ledger;
mod state;
mod vault;

pub use address::{
    authority_address, authority_seeds, collection_address, collection_seeds, derived_address,
    program_address_of, vault_address, vault_seeds, MAX_SEEDS, MAX_SEED_LEN,
};
pub use approval::{
    approval_outcome, attested_key, attested_key_of, attests_other_key, is_expired,
    verify_approval, SignatureDirective, APPROVAL_WINDOW, ATTESTED_KEY_OFFSET, KEY_LEN,
};
pub use effects::{
    AssetBurn, AssetCreation, Attribute, ClaimEffects, CollectionCreation, FeeTransfer, MintEffects,
};
pub use emblem_vault_solana::{
    claim_vault, create_collection, find_vault, get_base_uri, get_claimer, get_vault_owner,
    is_claimed, initialize_program, mint_vault, set_base_uri,
    update_signer_public_key, ClaimVault, CreateCollection, GetBaseUri, InitializeProgram,
    MintVault, SetBaseUri, UpdateSignerPublicKey,
};
pub use error::VaultError;
pub use key::Key;
pub use ledger::{Ledger, LedgerView};
pub use state::{ProgramState, ProgramStateView};
pub use vault::{Collection, CollectionView, Vault, VaultView};
