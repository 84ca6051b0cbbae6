use vstd::prelude::*;

use crate::error::VaultError;
use crate::key::Key;

verus! {

/// How many seconds an approval stays valid after the signer's timestamp.
pub const APPROVAL_WINDOW: i64 = 900;

/// Where the attested public key starts inside a signature check's payload.
pub const ATTESTED_KEY_OFFSET: usize = 16;

/// Length of a public key in bytes.
pub const KEY_LEN: usize = 32;

/// The signature check that stands first in the atomic unit: the program
/// that ran it and its payload.
#[derive(Clone, Debug, PartialEq, Eq)]
pub struct SignatureDirective {
    pub program_id: Key,
    pub data: Vec<u8>,
}

/// The public key that a signature check's payload attests, if the payload
/// is long enough to hold one.
pub open spec fn attested_key_of(data: Seq<u8>) -> Option<Seq<u8>> {
    if data.len() >= ATTESTED_KEY_OFFSET + KEY_LEN {
        Some(data.subrange(ATTESTED_KEY_OFFSET as int, ATTESTED_KEY_OFFSET + KEY_LEN))
    } else {
        None
    }
}

/// Whether an approval stamped `timestamp` has lapsed at `current_time`.
pub open spec fn is_expired(current_time: i64, timestamp: i64) -> bool {
    current_time - timestamp > APPROVAL_WINDOW
}

/// Whether a signature check from the verification program attests a key
/// other than `signer`.
pub open spec fn attests_other_key(
    directive: Option<SignatureDirective>,
    verification_program: Seq<u8>,
    signer: Seq<u8>,
) -> bool {
    match directive {
        Some(d) => d.program_id@ == verification_program && match attested_key_of(d.data@) {
            Some(k) => k != signer,
            None => false,
        },
        None => false,
    }
}

/// The verdict on an approval: the check must come from the verification
/// program, attest the registered signer key, and still be fresh.
pub open spec fn approval_outcome(
    directive: Option<SignatureDirective>,
    verification_program: Seq<u8>,
    signer: Seq<u8>,
    current_time: i64,
    timestamp: i64,
) -> Result<(), VaultError> {
    match directive {
        None => Err(VaultError::InvalidSignature),
        Some(d) => if d.program_id@ != verification_program {
            Err(VaultError::InvalidSignature)
        } else {
            match attested_key_of(d.data@) {
                None => Err(VaultError::MalformedAttestation),
                Some(k) => if k != signer {
                    Err(VaultError::InvalidSigner)
                } else if is_expired(current_time, timestamp) {
                    Err(VaultError::ApprovalExpired)
                } else {
                    Ok(())
                },
            }
        },
    }
}

/// Reads the attested public key out of a signature check's payload.
pub fn attested_key(data: &Vec<u8>) -> (r: Result<Key, VaultError>)
    ensures
        match r {
            Ok(k) => attested_key_of(data@) == Some(k@),
            Err(e) => attested_key_of(data@) is None && e == VaultError::MalformedAttestation,
        },
{
    if data.len() < ATTESTED_KEY_OFFSET + KEY_LEN {
        return Err(VaultError::MalformedAttestation);
    }
    let mut bytes: [u8; 32] = [0u8; 32];
    let mut i: usize = 0;
    while i < KEY_LEN
        invariant
            i <= KEY_LEN,
            data@.len() >= ATTESTED_KEY_OFFSET + KEY_LEN,
            bytes@.len() == KEY_LEN,
            forall|j: int| 0 <= j < i ==> bytes@[j] == data@[ATTESTED_KEY_OFFSET + j],
        decreases KEY_LEN - i,
    {
        bytes[i] = data[ATTESTED_KEY_OFFSET + i];
        i = i + 1;
    }
    let k = Key::new(bytes);
    assert(k@ =~= data@.subrange(ATTESTED_KEY_OFFSET as int, ATTESTED_KEY_OFFSET + KEY_LEN));
    Ok(k)
}

/// Checks the approval carried by the atomic unit against the registered
/// signer key at `current_time`. What the signature covers is not read
/// here: the token identifier, price and timestamp travel beside the check
/// and are not compared with its signed message.
pub fn verify_approval(
    directive: &Option<SignatureDirective>,
    verification_program: &Key,
    signer: &Key,
    current_time: i64,
    timestamp: i64,
) -> (r: Result<(), VaultError>)
    ensures
        r == approval_outcome(*directive, verification_program@, signer@, current_time, timestamp),
        is_expired(current_time, timestamp) ==> r is Err,
        attests_other_key(*directive, verification_program@, signer@)
            ==> r == Err::<(), VaultError>(VaultError::InvalidSigner),
{
    match directive {
        None => Err(VaultError::InvalidSignature),
        Some(d) => {
            if !d.program_id.same_as(verification_program) {
                return Err(VaultError::InvalidSignature);
            }
            let k = match attested_key(&d.data) {
                Ok(k) => k,
                Err(e) => return Err(e),
            };
            if !k.same_as(signer) {
                return Err(VaultError::InvalidSigner);
            }
            if (current_time as i128) - (timestamp as i128) > APPROVAL_WINDOW as i128 {
                return Err(VaultError::ApprovalExpired);
            }
            Ok(())
        },
    }
}

} // verus!
