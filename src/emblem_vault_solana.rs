//! The program's operations. Each takes the ledger, the accounts of the
//! call as keys, and the call's arguments. A failed operation leaves the
//! ledger as it was; a successful one updates it and returns the outside
//! work that must commit with it.

use vstd::prelude::*;
use vstd::string::*;

use crate::address::{
    authority_address, authority_seeds, collection_address, collection_seeds, derived_address,
    vault_address, vault_seeds,
};
use crate::approval::{approval_outcome, verify_approval, SignatureDirective};
use crate::effects::{
    AssetBurn, AssetCreation, Attribute, ClaimEffects, CollectionCreation, FeeTransfer, MintEffects,
};
use crate::error::VaultError;
use crate::key::Key;
use crate::ledger::{Ledger, LedgerView};
use crate::state::{ProgramState, ProgramStateView};
use crate::vault::{Collection, CollectionView, Vault, VaultView};

verus! {

/// Accounts of `initialize_program`.
#[derive(Clone, Copy, Debug, PartialEq, Eq)]
pub struct InitializeProgram {
    /// Becomes the program's authority.
    pub authority: Key,
}

/// Accounts of `set_base_uri`.
#[derive(Clone, Copy, Debug, PartialEq, Eq)]
pub struct SetBaseUri {
    pub authority: Key,
}

/// Accounts of `get_base_uri`: none beyond the configuration.
#[derive(Clone, Copy, Debug, PartialEq, Eq)]
pub struct GetBaseUri {}

/// Accounts of `update_signer_public_key`.
#[derive(Clone, Copy, Debug, PartialEq, Eq)]
pub struct UpdateSignerPublicKey {
    pub authority: Key,
}

/// Accounts of `create_collection`.
#[derive(Clone, Copy, Debug, PartialEq, Eq)]
pub struct CreateCollection {
    pub payer: Key,
}

/// Accounts of `mint_vault`, with what the atomic unit carries: the
/// signature check at its first position and the runtime's current time.
#[derive(Clone, Debug, PartialEq, Eq)]
pub struct MintVault {
    pub payer: Key,
    pub fee_receiver: Key,
    pub collection: Key,
    pub signature_check: Option<SignatureDirective>,
    pub current_time: i64,
}

/// Accounts of `claim_vault`, with what the atomic unit carries.
#[derive(Clone, Debug, PartialEq, Eq)]
pub struct ClaimVault {
    pub claimer: Key,
    pub fee_receiver: Key,
    pub collection: Key,
    pub signature_check: Option<SignatureDirective>,
    pub current_time: i64,
}

/// The ledger with the configuration replaced.
pub open spec fn with_state(l: LedgerView, s: ProgramStateView) -> LedgerView {
    LedgerView { state: Some(s), ..l }
}

/// The outcome of an administrative change requested by `caller`.
pub open spec fn admin_check(l: LedgerView, caller: Seq<u8>) -> Result<ProgramStateView, VaultError> {
    match l.state {
        None => Err(VaultError::NotInitialized),
        Some(s) => if s.authority != caller {
            Err(VaultError::Unauthorized)
        } else {
            Ok(s)
        },
    }
}

/// Creates the configuration; the caller becomes its authority.
pub fn initialize_program(
    ledger: &mut Ledger,
    accounts: &InitializeProgram,
    base_uri: String,
    signer: Key,
) -> (r: Result<(), VaultError>)
    requires
        old(ledger).wf(),
    ensures
        final(ledger).wf(),
        match r {
            Ok(_) => old(ledger)@.state is None && final(ledger)@ == with_state(
                old(ledger)@,
                ProgramStateView {
                    base_uri: base_uri@,
                    authority: accounts.authority@,
                    signer_public_key: signer@,
                },
            ),
            Err(e) => old(ledger)@.state is Some && e == VaultError::AlreadyInitialized
                && final(ledger)@ == old(ledger)@,
        },
{
    if ledger.program_state().is_some() {
        return Err(VaultError::AlreadyInitialized);
    }
    ledger.load_state(
        ProgramState { base_uri, authority: accounts.authority, signer_public_key: signer },
    );
    Ok(())
}

/// Replaces the base URI; only the authority may.
pub fn set_base_uri(ledger: &mut Ledger, accounts: &SetBaseUri, new_base_uri: String) -> (r: Result<
    (),
    VaultError,
>)
    requires
        old(ledger).wf(),
    ensures
        final(ledger).wf(),
        match r {
            Ok(_) => admin_check(old(ledger)@, accounts.authority@) matches Ok(s)
                && final(ledger)@ == with_state(old(ledger)@, ProgramStateView { base_uri: new_base_uri@, ..s }),
            Err(e) => admin_check(old(ledger)@, accounts.authority@) == Err::<ProgramStateView, VaultError>(e)
                && final(ledger)@ == old(ledger)@,
        },
{
    let s = match ledger.program_state() {
        None => return Err(VaultError::NotInitialized),
        Some(s) => s,
    };
    if !s.authority.same_as(&accounts.authority) {
        return Err(VaultError::Unauthorized);
    }
    let next = ProgramState {
        base_uri: new_base_uri,
        authority: s.authority,
        signer_public_key: s.signer_public_key,
    };
    ledger.load_state(next);
    Ok(())
}

/// The current base URI.
pub fn get_base_uri(ledger: &Ledger, accounts: &GetBaseUri) -> (r: Result<String, VaultError>)
    ensures
        match r {
            Ok(u) => ledger@.state matches Some(s) && u@ == s.base_uri,
            Err(e) => ledger@.state is None && e == VaultError::NotInitialized,
        },
{
    match ledger.program_state() {
        None => Err(VaultError::NotInitialized),
        Some(s) => Ok(s.base_uri.clone()),
    }
}

/// Replaces the registered signer key; only the authority may.
pub fn update_signer_public_key(
    ledger: &mut Ledger,
    accounts: &UpdateSignerPublicKey,
    new_signer_public_key: Key,
) -> (r: Result<(), VaultError>)
    requires
        old(ledger).wf(),
    ensures
        final(ledger).wf(),
        match r {
            Ok(_) => admin_check(old(ledger)@, accounts.authority@) matches Ok(s)
                && final(ledger)@ == with_state(
                old(ledger)@,
                ProgramStateView { signer_public_key: new_signer_public_key@, ..s },
            ),
            Err(e) => admin_check(old(ledger)@, accounts.authority@) == Err::<ProgramStateView, VaultError>(e)
                && final(ledger)@ == old(ledger)@,
        },
{
    let s = match ledger.program_state() {
        None => return Err(VaultError::NotInitialized),
        Some(s) => s,
    };
    if !s.authority.same_as(&accounts.authority) {
        return Err(VaultError::Unauthorized);
    }
    let next = ProgramState {
        base_uri: s.base_uri.clone(),
        authority: s.authority,
        signer_public_key: new_signer_public_key,
    };
    ledger.load_state(next);
    Ok(())
}

/// Metadata URI of every collection.
pub const COLLECTION_URI: &'static str = "https://gray-experienced-mockingbird-652.mypinata.cloud/ipfs/QmdMeZyHGkmnBHbLrXKRzibCqFDTvgTXGNrBnY2opup1Go";

/// Display name of the collection of the given type.
pub open spec fn collection_name(collection_type: Seq<char>) -> Seq<char> {
    "Emblem "@ + collection_type + " Vaults"@
}

/// What `create_collection` decides: the address of a collection to create,
/// `None` when one is there already.
pub open spec fn collection_check(l: LedgerView, collection_type: Seq<char>) -> Result<
    Option<Seq<u8>>,
    VaultError,
> {
    match derived_address(collection_seeds(collection_type), l.program_id) {
        None => Err(VaultError::AddressUnavailable),
        Some(a) => if derived_address(authority_seeds(), l.program_id) is None {
            Err(VaultError::AddressUnavailable)
        } else if l.collections.contains_key(a) {
            Ok(None)
        } else {
            Ok(Some(a))
        },
    }
}

/// The record of a new collection.
pub open spec fn new_collection(l: LedgerView, collection_type: Seq<char>, a: Seq<u8>) -> CollectionView {
    CollectionView {
        address: a,
        name: collection_name(collection_type),
        uri: COLLECTION_URI@,
        delegate: derived_address(authority_seeds(), l.program_id)->Some_0,
    }
}

/// Creates the collection of `collection_type` unless it exists; creating
/// it twice is no error and changes nothing.
pub fn create_collection(
    ledger: &mut Ledger,
    accounts: &CreateCollection,
    collection_type: String,
) -> (r: Result<Option<CollectionCreation>, VaultError>)
    requires
        old(ledger).wf(),
    ensures
        final(ledger).wf(),
        match r {
            Ok(Some(c)) => collection_check(old(ledger)@, collection_type@) == Ok::<_, VaultError>(Some(c.collection@))
                && final(ledger)@ == (LedgerView {
                    collections: old(ledger)@.collections.insert(
                        c.collection@,
                        new_collection(old(ledger)@, collection_type@, c.collection@),
                    ),
                    ..old(ledger)@
                })
                && c.payer == accounts.payer
                && derived_address(authority_seeds(), old(ledger)@.program_id) == Some(c.authority@)
                && c.name@ == collection_name(collection_type@)
                && c.uri@ == COLLECTION_URI@,
            Ok(None) => collection_check(old(ledger)@, collection_type@) == Ok::<_, VaultError>(None::<Seq<u8>>)
                && final(ledger)@ == old(ledger)@,
            Err(e) => collection_check(old(ledger)@, collection_type@) == Err::<Option<Seq<u8>>, VaultError>(e)
                && final(ledger)@ == old(ledger)@,
        },
{
    let program_id = ledger.program_id();
    let address = match collection_address(&program_id, &collection_type) {
        None => return Err(VaultError::AddressUnavailable),
        Some(a) => a,
    };
    let authority = match authority_address(&program_id) {
        None => return Err(VaultError::AddressUnavailable),
        Some(a) => a,
    };
    if ledger.collection(&address).is_some() {
        return Ok(None);
    }
    let mut name = String::from_str("Emblem ");
    name.append(collection_type.as_str());
    name.append(" Vaults");
    let uri = String::from_str(COLLECTION_URI);
    let record = Collection {
        address,
        name: name.clone(),
        uri: uri.clone(),
        delegate: authority,
    };
    ledger.insert_collection(record);
    Ok(Some(CollectionCreation { collection: address, payer: accounts.payer, authority, name, uri }))
}


/// What `mint_vault` decides: the address of the vault to create, or why
/// none is created.
pub open spec fn mint_check(
    l: LedgerView,
    accounts: MintVault,
    external_token_id: Seq<char>,
    timestamp: i64,
) -> Result<Seq<u8>, VaultError> {
    match l.state {
        None => Err(VaultError::NotInitialized),
        Some(s) => match approval_outcome(
            accounts.signature_check,
            l.verification_program,
            s.signer_public_key,
            accounts.current_time,
            timestamp,
        ) {
            Err(e) => Err(e),
            Ok(_) => match derived_address(
                vault_seeds(accounts.collection@, external_token_id),
                l.program_id,
            ) {
                None => Err(VaultError::AddressUnavailable),
                Some(a) => if l.vaults.contains_key(a) {
                    Err(VaultError::VaultAlreadyExists)
                } else if derived_address(authority_seeds(), l.program_id) is None {
                    Err(VaultError::AddressUnavailable)
                } else {
                    Ok(a)
                },
            },
        },
    }
}

/// The record of a freshly minted vault.
pub open spec fn minted_vault(payer: Seq<u8>, external_token_id: Seq<char>, a: Seq<u8>) -> VaultView {
    VaultView {
        owner: payer,
        external_token_id,
        is_minted: true,
        is_claimed: false,
        claimer: None,
        asset: a,
    }
}

/// The ledger after minting the vault at `a`.
pub open spec fn mint_post(
    l: LedgerView,
    accounts: MintVault,
    external_token_id: Seq<char>,
    a: Seq<u8>,
) -> LedgerView {
    LedgerView {
        vaults: l.vaults.insert(a, minted_vault(accounts.payer@, external_token_id, a)),
        ..l
    }
}

/// The attributes a vault's asset carries when minted.
pub open spec fn mint_attributes(attributes: Seq<Attribute>, external_token_id: Seq<char>) -> bool {
    &&& attributes.len() == 3
    &&& attributes[0].key@ == "is_minted"@ && attributes[0].value@ == "true"@
    &&& attributes[1].key@ == "is_claimed"@ && attributes[1].value@ == "false"@
    &&& attributes[2].key@ == "external_token_id"@ && attributes[2].value@ == external_token_id
}

/// Display name of a vault's asset.
pub open spec fn asset_name(external_token_id: Seq<char>) -> Seq<char> {
    "Emblem Vault "@ + external_token_id
}

/// The outside work of minting the vault at `a`: the fee from the payer to
/// the fee receiver, and the asset under the collection, its URI the base
/// URI followed by the token identifier.
pub open spec fn mint_effects(
    l: LedgerView,
    accounts: MintVault,
    external_token_id: Seq<char>,
    price: u64,
    a: Seq<u8>,
    fx: MintEffects,
) -> bool {
    &&& fx.fee.from == accounts.payer
    &&& fx.fee.to == accounts.fee_receiver
    &&& fx.fee.amount == price
    &&& fx.asset.asset@ == a
    &&& fx.asset.collection == accounts.collection
    &&& derived_address(authority_seeds(), l.program_id) == Some(fx.asset.authority@)
    &&& fx.asset.payer == accounts.payer
    &&& fx.asset.name@ == asset_name(external_token_id)
    &&& l.state matches Some(s) && fx.asset.uri@ == s.base_uri + external_token_id
    &&& mint_attributes(fx.asset.attributes@, external_token_id)
}

/// Mints the vault of `external_token_id` in the collection: at most once
/// per address, and only with a fresh approval by the registered signer.
pub fn mint_vault(
    ledger: &mut Ledger,
    accounts: &MintVault,
    external_token_id: String,
    price: u64,
    timestamp: i64,
) -> (r: Result<MintEffects, VaultError>)
    requires
        old(ledger).wf(),
    ensures
        final(ledger).wf(),
        match r {
            Ok(fx) => mint_check(old(ledger)@, *accounts, external_token_id@, timestamp) == Ok::<_, VaultError>(fx.asset.asset@)
                && final(ledger)@ == mint_post(old(ledger)@, *accounts, external_token_id@, fx.asset.asset@)
                && mint_effects(old(ledger)@, *accounts, external_token_id@, price, fx.asset.asset@, fx),
            Err(e) => mint_check(old(ledger)@, *accounts, external_token_id@, timestamp) == Err::<Seq<u8>, VaultError>(e)
                && final(ledger)@ == old(ledger)@,
        },
{
    let (signer, base_uri) = match ledger.program_state() {
        None => return Err(VaultError::NotInitialized),
        Some(s) => (s.signer_public_key, s.base_uri.clone()),
    };
    let verification_program = ledger.verification_program();
    match verify_approval(&accounts.signature_check, &verification_program, &signer, accounts.current_time, timestamp) {
        Err(e) => return Err(e),
        Ok(_) => {},
    }
    let program_id = ledger.program_id();
    let address = match vault_address(&program_id, &accounts.collection, &external_token_id) {
        None => return Err(VaultError::AddressUnavailable),
        Some(a) => a,
    };
    if ledger.vault(&address).is_some() {
        return Err(VaultError::VaultAlreadyExists);
    }
    let authority = match authority_address(&program_id) {
        None => return Err(VaultError::AddressUnavailable),
        Some(a) => a,
    };
    let mut name = String::from_str("Emblem Vault ");
    name.append(external_token_id.as_str());
    let mut uri = base_uri;
    uri.append(external_token_id.as_str());
    let mut attributes: Vec<Attribute> = Vec::new();
    attributes.push(Attribute { key: String::from_str("is_minted"), value: String::from_str("true") });
    attributes.push(Attribute { key: String::from_str("is_claimed"), value: String::from_str("false") });
    attributes.push(Attribute { key: String::from_str("external_token_id"), value: external_token_id.clone() });
    let record = Vault {
        owner: accounts.payer,
        external_token_id,
        is_minted: true,
        is_claimed: false,
        claimer: None,
        asset: address,
    };
    ledger.insert_vault(record);
    Ok(MintEffects {
        fee: FeeTransfer { from: accounts.payer, to: accounts.fee_receiver, amount: price },
        asset: AssetCreation {
            asset: address,
            collection: accounts.collection,
            authority,
            payer: accounts.payer,
            name,
            uri,
            attributes,
        },
    })
}

/// What `claim_vault` decides: the address of the vault to claim, or why
/// it cannot be claimed.
pub open spec fn claim_check(
    l: LedgerView,
    accounts: ClaimVault,
    external_token_id: Seq<char>,
    timestamp: i64,
) -> Result<Seq<u8>, VaultError> {
    match l.state {
        None => Err(VaultError::NotInitialized),
        Some(s) => match approval_outcome(
            accounts.signature_check,
            l.verification_program,
            s.signer_public_key,
            accounts.current_time,
            timestamp,
        ) {
            Err(e) => Err(e),
            Ok(_) => match derived_address(
                vault_seeds(accounts.collection@, external_token_id),
                l.program_id,
            ) {
                None => Err(VaultError::NotMinted),
                Some(a) => if !l.vaults.contains_key(a) || !l.vaults[a].is_minted {
                    Err(VaultError::NotMinted)
                } else if l.vaults[a].is_claimed {
                    Err(VaultError::AlreadyClaimed)
                } else if l.vaults[a].external_token_id != external_token_id {
                    Err(VaultError::InvalidExternalTokenId)
                } else if derived_address(authority_seeds(), l.program_id) is None {
                    Err(VaultError::AddressUnavailable)
                } else {
                    Ok(a)
                },
            },
        },
    }
}

/// The ledger after the vault at `a` is claimed by the caller.
pub open spec fn claim_post(l: LedgerView, accounts: ClaimVault, a: Seq<u8>) -> LedgerView {
    LedgerView {
        vaults: l.vaults.insert(
            a,
            VaultView { is_claimed: true, claimer: Some(accounts.claimer@), ..l.vaults[a] },
        ),
        ..l
    }
}

/// The outside work of claiming the vault at `a`: the fee from the claimer
/// to the fee receiver, and the burn of the vault's asset.
pub open spec fn claim_effects(
    l: LedgerView,
    accounts: ClaimVault,
    price: u64,
    a: Seq<u8>,
    fx: ClaimEffects,
) -> bool {
    &&& fx.fee.from == accounts.claimer
    &&& fx.fee.to == accounts.fee_receiver
    &&& fx.fee.amount == price
    &&& fx.burn.asset@ == a
    &&& fx.burn.collection == accounts.collection
    &&& derived_address(authority_seeds(), l.program_id) == Some(fx.burn.authority@)
    &&& fx.burn.payer == accounts.claimer
}

/// Claims the minted vault of `external_token_id`: at most once, and only
/// with a fresh approval by the registered signer. The asset is burned.
pub fn claim_vault(
    ledger: &mut Ledger,
    accounts: &ClaimVault,
    external_token_id: String,
    price: u64,
    timestamp: i64,
) -> (r: Result<ClaimEffects, VaultError>)
    requires
        old(ledger).wf(),
    ensures
        final(ledger).wf(),
        match r {
            Ok(fx) => claim_check(old(ledger)@, *accounts, external_token_id@, timestamp) == Ok::<_, VaultError>(fx.burn.asset@)
                && final(ledger)@ == claim_post(old(ledger)@, *accounts, fx.burn.asset@)
                && claim_effects(old(ledger)@, *accounts, price, fx.burn.asset@, fx),
            Err(e) => claim_check(old(ledger)@, *accounts, external_token_id@, timestamp) == Err::<Seq<u8>, VaultError>(e)
                && final(ledger)@ == old(ledger)@,
        },
{
    let signer = match ledger.program_state() {
        None => return Err(VaultError::NotInitialized),
        Some(s) => s.signer_public_key,
    };
    let verification_program = ledger.verification_program();
    match verify_approval(&accounts.signature_check, &verification_program, &signer, accounts.current_time, timestamp) {
        Err(e) => return Err(e),
        Ok(_) => {},
    }
    let program_id = ledger.program_id();
    let address = match vault_address(&program_id, &accounts.collection, &external_token_id) {
        None => return Err(VaultError::NotMinted),
        Some(a) => a,
    };
    let claimed = match ledger.vault(&address) {
        None => return Err(VaultError::NotMinted),
        Some(v) => {
            if !v.is_minted {
                return Err(VaultError::NotMinted);
            }
            if v.is_claimed {
                return Err(VaultError::AlreadyClaimed);
            }
            if v.external_token_id != external_token_id {
                return Err(VaultError::InvalidExternalTokenId);
            }
            Vault {
                owner: v.owner,
                external_token_id: v.external_token_id.clone(),
                is_minted: v.is_minted,
                is_claimed: true,
                claimer: Some(accounts.claimer),
                asset: v.asset,
            }
        },
    };
    let authority = match authority_address(&program_id) {
        None => return Err(VaultError::AddressUnavailable),
        Some(a) => a,
    };
    proof {
        assert(claimed@ == (VaultView {
            is_claimed: true,
            claimer: Some(accounts.claimer@),
            ..ledger@.vaults[address@]
        }));
    }
    ledger.replace_vault(claimed);
    Ok(ClaimEffects {
        fee: FeeTransfer { from: accounts.claimer, to: accounts.fee_receiver, amount: price },
        burn: AssetBurn { asset: address, collection: accounts.collection, authority, payer: accounts.claimer },
    })
}

/// The vault recorded for `external_token_id` in `collection`, if any.
pub open spec fn vault_of(l: LedgerView, collection: Seq<u8>, external_token_id: Seq<char>) -> Option<VaultView> {
    match derived_address(vault_seeds(collection, external_token_id), l.program_id) {
        Some(a) => if l.vaults.contains_key(a) {
            Some(l.vaults[a])
        } else {
            None
        },
        None => None,
    }
}

/// Looks up the vault of `external_token_id` in `collection`.
pub fn find_vault<'a>(ledger: &'a Ledger, collection: &Key, external_token_id: &String) -> (r: Option<&'a Vault>)
    requires
        ledger.wf(),
    ensures
        match r {
            Some(v) => vault_of(ledger@, collection@, external_token_id@) == Some(v@),
            None => vault_of(ledger@, collection@, external_token_id@) is None,
        },
{
    match vault_address(&ledger.program_id(), collection, external_token_id) {
        None => None,
        Some(a) => ledger.vault(&a),
    }
}

/// Whether the vault of `external_token_id` is claimed.
pub fn is_claimed(ledger: &Ledger, collection: &Key, external_token_id: &String) -> (r: Result<bool, VaultError>)
    requires
        ledger.wf(),
    ensures
        match vault_of(ledger@, collection@, external_token_id@) {
            Some(v) => r == Ok::<bool, VaultError>(v.is_claimed),
            None => r == Err::<bool, VaultError>(VaultError::NotMinted),
        },
{
    match find_vault(ledger, collection, external_token_id) {
        None => Err(VaultError::NotMinted),
        Some(v) => Ok(v.is_claimed),
    }
}

/// Who minted the vault of `external_token_id`.
pub fn get_vault_owner(ledger: &Ledger, collection: &Key, external_token_id: &String) -> (r: Result<Key, VaultError>)
    requires
        ledger.wf(),
    ensures
        match vault_of(ledger@, collection@, external_token_id@) {
            Some(v) => r matches Ok(k) && k@ == v.owner,
            None => r == Err::<Key, VaultError>(VaultError::NotMinted),
        },
{
    match find_vault(ledger, collection, external_token_id) {
        None => Err(VaultError::NotMinted),
        Some(v) => Ok(v.owner),
    }
}

/// Who claimed the vault of `external_token_id`, if anyone did.
pub fn get_claimer(ledger: &Ledger, collection: &Key, external_token_id: &String) -> (r: Result<Option<Key>, VaultError>)
    requires
        ledger.wf(),
    ensures
        match vault_of(ledger@, collection@, external_token_id@) {
            Some(v) => r matches Ok(c) && match c {
                Some(k) => v.claimer == Some(k@),
                None => v.claimer is None,
            },
            None => r == Err::<Option<Key>, VaultError>(VaultError::NotMinted),
        },
{
    match find_vault(ledger, collection, external_token_id) {
        None => Err(VaultError::NotMinted),
        Some(v) => Ok(v.claimer),
    }
}

} // verus!
