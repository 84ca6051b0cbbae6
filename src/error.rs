use vstd::prelude::*;

verus! {

/// Every way an operation of the protocol can fail. A failed operation
/// leaves the ledger as it was.
#[derive(Clone, Copy, Debug, PartialEq, Eq, Structural)]
pub enum VaultError {
    /// A claim names a vault that was never minted.
    NotMinted,
    /// The approval is older than the validity window.
    ApprovalExpired,
    /// The vault was claimed before.
    AlreadyClaimed,
    /// The stored token identifier differs from the one given.
    InvalidExternalTokenId,
    /// No signature check precedes the operation, or it was not made by the
    /// signature-verification program.
    InvalidSignature,
    /// The caller is not the program's authority.
    Unauthorized,
    /// The attested key is not the registered signer key.
    InvalidSigner,
    /// A vault already holds the derived address.
    VaultAlreadyExists,
    /// The signature check's payload is too short to hold a public key.
    MalformedAttestation,
    /// The program's configuration exists already.
    AlreadyInitialized,
    /// The program's configuration does not exist yet.
    NotInitialized,
    /// No program address can be derived from the seeds (too many, or one
    /// longer than the runtime allows).
    AddressUnavailable,
}

} // verus!
