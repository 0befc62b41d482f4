//! Who calls the beacon, as the host presents them.

use vstd::prelude::*;

verus! {

/// A 32-byte public key.
#[derive(Clone, Copy, Debug, PartialEq, Eq)]
pub struct PublicKey {
    pub bytes: [u8; 32],
}

/// The identity behind one call, together with the host's verdict on it.
#[derive(Clone, Copy, Debug, PartialEq, Eq)]
pub struct Caller {
    /// The key the caller claims.
    pub public_key: PublicKey,
    /// Whether the host found a valid signature by that key over this call.
    pub is_signer: bool,
}

/// The accounts of one `emit_execution` call.
#[derive(Clone, Copy, Debug, PartialEq, Eq)]
pub struct EmitExecution {
    /// The caller who attests that the quote was executed.
    pub payer: Caller,
}

impl Caller {
    /// A caller whose signature the host has verified.
    pub fn authenticated(public_key: PublicKey) -> (caller: Caller)
        ensures
            caller == (Caller { public_key, is_signer: true }),
    {
        Caller { public_key, is_signer: true }
    }

    /// A caller for whom the host found no valid signature.
    pub fn unauthenticated(public_key: PublicKey) -> (caller: Caller)
        ensures
            caller == (Caller { public_key, is_signer: false }),
    {
        Caller { public_key, is_signer: false }
    }
}

} // verus!
