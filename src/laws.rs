//! Properties of the protocol that span several calls or every input,
//! stated over the decisions the operations are proved to make.

use vstd::prelude::*;

use crate::address::{derived_address, vault_seeds};
use crate::approval::{approval_outcome, attested_key_of, attests_other_key, is_expired, SignatureDirective};
use crate::emblem_vault_solana::{claim_check, claim_post, mint_check, mint_post, ClaimVault, MintVault};
use crate::error::VaultError;
use crate::ledger::LedgerView;

verus! {

/// Whether the signature check comes from the verification program and
/// attests `signer`.
pub open spec fn attests(directive: Option<SignatureDirective>, verification_program: Seq<u8>, signer: Seq<u8>) -> bool {
    directive matches Some(d) && d.program_id@ == verification_program && attested_key_of(d.data@) == Some(signer)
}

/// Whether the ledger is initialized and the approval passes its checks.
pub open spec fn approved(l: LedgerView, directive: Option<SignatureDirective>, current_time: i64, timestamp: i64) -> bool {
    l.state matches Some(s) && approval_outcome(
        directive,
        l.verification_program,
        s.signer_public_key,
        current_time,
        timestamp,
    ) is Ok
}

/// An approval from the registered signer is accepted exactly when no more
/// than the validity window has passed since its timestamp, and rejected as
/// expired otherwise.
pub proof fn approval_window(
    directive: Option<SignatureDirective>,
    verification_program: Seq<u8>,
    signer: Seq<u8>,
    current_time: i64,
    timestamp: i64,
)
    requires
        attests(directive, verification_program, signer),
    ensures
        approval_outcome(directive, verification_program, signer, current_time, timestamp) is Ok
            <==> current_time - timestamp <= 900,
        current_time - timestamp > 900 ==> approval_outcome(
            directive,
            verification_program,
            signer,
            current_time,
            timestamp,
        ) == Err::<(), VaultError>(VaultError::ApprovalExpired),
{
}

/// An expired approval never lets a mint or a claim through; with a check
/// that attests the registered signer, both fail as expired.
pub proof fn expired_approval_rejected(
    l: LedgerView,
    m: MintVault,
    c: ClaimVault,
    external_token_id: Seq<char>,
    timestamp: i64,
)
    requires
        l.state is Some,
        is_expired(m.current_time, timestamp),
        is_expired(c.current_time, timestamp),
    ensures
        mint_check(l, m, external_token_id, timestamp) is Err,
        claim_check(l, c, external_token_id, timestamp) is Err,
        attests(m.signature_check, l.verification_program, l.state->Some_0.signer_public_key)
            ==> mint_check(l, m, external_token_id, timestamp) == Err::<Seq<u8>, VaultError>(
            VaultError::ApprovalExpired,
        ),
        attests(c.signature_check, l.verification_program, l.state->Some_0.signer_public_key)
            ==> claim_check(l, c, external_token_id, timestamp) == Err::<Seq<u8>, VaultError>(
            VaultError::ApprovalExpired,
        ),
{
}

/// A check that attests any key but the registered signer's fails a mint
/// or a claim as an invalid signer, whatever the price and timestamp.
pub proof fn other_signer_rejected(
    l: LedgerView,
    m: MintVault,
    c: ClaimVault,
    external_token_id: Seq<char>,
    timestamp: i64,
)
    requires
        l.state is Some,
    ensures
        attests_other_key(m.signature_check, l.verification_program, l.state->Some_0.signer_public_key)
            ==> mint_check(l, m, external_token_id, timestamp) == Err::<Seq<u8>, VaultError>(
            VaultError::InvalidSigner,
        ),
        attests_other_key(c.signature_check, l.verification_program, l.state->Some_0.signer_public_key)
            ==> claim_check(l, c, external_token_id, timestamp) == Err::<Seq<u8>, VaultError>(
            VaultError::InvalidSigner,
        ),
{
}

/// Once a vault holds the address of a collection and token identifier, no
/// mint for them succeeds; with a valid approval it fails because the vault
/// exists.
pub proof fn existing_vault_blocks_mint(
    l: LedgerView,
    m: MintVault,
    external_token_id: Seq<char>,
    timestamp: i64,
    a: Seq<u8>,
)
    requires
        derived_address(vault_seeds(m.collection@, external_token_id), l.program_id) == Some(a),
        l.vaults.contains_key(a),
    ensures
        mint_check(l, m, external_token_id, timestamp) is Err,
        approved(l, m.signature_check, m.current_time, timestamp) ==> mint_check(
            l,
            m,
            external_token_id,
            timestamp,
        ) == Err::<Seq<u8>, VaultError>(VaultError::VaultAlreadyExists),
{
}

/// A token identifier is minted at most once per collection: after a
/// successful mint, another mint for it fails, and fails because the vault
/// exists when its approval is valid.
pub proof fn mint_at_most_once(
    l: LedgerView,
    first: MintVault,
    second: MintVault,
    external_token_id: Seq<char>,
    first_timestamp: i64,
    second_timestamp: i64,
)
    requires
        mint_check(l, first, external_token_id, first_timestamp) is Ok,
        second.collection == first.collection,
    ensures
        ({
            let a = mint_check(l, first, external_token_id, first_timestamp)->Ok_0;
            let next = mint_post(l, first, external_token_id, a);
            &&& mint_check(next, second, external_token_id, second_timestamp) is Err
            &&& approved(next, second.signature_check, second.current_time, second_timestamp)
                ==> mint_check(next, second, external_token_id, second_timestamp)
                == Err::<Seq<u8>, VaultError>(VaultError::VaultAlreadyExists)
        }),
{
    let a = mint_check(l, first, external_token_id, first_timestamp)->Ok_0;
    let next = mint_post(l, first, external_token_id, a);
    existing_vault_blocks_mint(next, second, external_token_id, second_timestamp, a);
}

/// A vault is claimed at most once: after a successful claim, another claim
/// of it fails, and fails as already claimed when its approval is valid;
/// no mint for it succeeds either.
pub proof fn claim_at_most_once(
    l: LedgerView,
    first: ClaimVault,
    second: ClaimVault,
    m: MintVault,
    external_token_id: Seq<char>,
    first_timestamp: i64,
    second_timestamp: i64,
)
    requires
        claim_check(l, first, external_token_id, first_timestamp) is Ok,
        second.collection == first.collection,
        m.collection == first.collection,
    ensures
        ({
            let a = claim_check(l, first, external_token_id, first_timestamp)->Ok_0;
            let next = claim_post(l, first, a);
            &&& claim_check(next, second, external_token_id, second_timestamp) is Err
            &&& approved(next, second.signature_check, second.current_time, second_timestamp)
                ==> claim_check(next, second, external_token_id, second_timestamp)
                == Err::<Seq<u8>, VaultError>(VaultError::AlreadyClaimed)
            &&& mint_check(next, m, external_token_id, second_timestamp) is Err
        }),
{
    let a = claim_check(l, first, external_token_id, first_timestamp)->Ok_0;
    let next = claim_post(l, first, a);
    existing_vault_blocks_mint(next, m, external_token_id, second_timestamp, a);
}

/// A claim of a token identifier that has no vault in the collection fails
/// as not minted once its approval is valid.
pub proof fn claim_before_mint(l: LedgerView, c: ClaimVault, external_token_id: Seq<char>, timestamp: i64)
    requires
        approved(l, c.signature_check, c.current_time, timestamp),
        !(derived_address(vault_seeds(c.collection@, external_token_id), l.program_id) matches Some(a)
            && l.vaults.contains_key(a)),
    ensures
        claim_check(l, c, external_token_id, timestamp) == Err::<Seq<u8>, VaultError>(VaultError::NotMinted),
{
}

} // verus!
