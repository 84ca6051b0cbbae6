use vstd::prelude::*;

use crate::key::Key;

verus! {

/// The program's single configuration record.
#[derive(Clone, Debug)]
pub struct ProgramState {
    /// Prefix of every asset's metadata URI.
    pub base_uri: String,
    /// The only identity allowed to change the configuration.
    pub authority: Key,
    /// The off-ledger signer whose approvals gate minting and claiming.
    pub signer_public_key: Key,
}

/// What a `ProgramState` holds.
pub struct ProgramStateView {
    pub base_uri: Seq<char>,
    pub authority: Seq<u8>,
    pub signer_public_key: Seq<u8>,
}

impl View for ProgramState {
    type V = ProgramStateView;

    open spec fn view(&self) -> ProgramStateView {
        ProgramStateView {
            base_uri: self.base_uri@,
            authority: self.authority@,
            signer_public_key: self.signer_public_key@,
        }
    }
}

} // verus!
