//! Identities: who sends a request, and how it is signed.
use vstd::prelude::*;
use crate::principal::Principal;

verus! {

/// A signature with the public key that verifies it.
#[derive(Clone, Debug)]
pub struct Signature {
    /// This is the DER-encoded public key.
    pub public_key: Option<Vec<u8>>,
    /// The signature bytes.
    pub signature: Option<Vec<u8>>,
}

impl Default for Signature {
    /// No key and no signature.
    fn default() -> (r: Signature)
        ensures
            r.public_key is None,
            r.signature is None,
    {
        Signature { public_key: None, signature: None }
    }
}

/// An identity knows the principal of the sender and signs blobs for it.
/// The blob to sign is the concatenation of the domain separator and the
/// request identifier; the identity adds no separation of its own.
pub trait Identity: Send + Sync {
    /// The principal that sends requests signed by this identity.
    fn sender(&self) -> Result<Principal, String>;

    /// Signs a blob, giving the sender's signature.
    fn sign(&self, blob: &[u8]) -> Result<Signature, String>;
}

/// The identity of unauthenticated callers: it signs nothing.
pub struct AnonymousIdentity;

impl Identity for AnonymousIdentity {
    /// The anonymous principal.
    fn sender(&self) -> (r: Result<Principal, String>) {
        Ok(Principal::anonymous())
    }

    /// No key and no signature, whatever the blob.
    fn sign(&self, blob: &[u8]) -> (r: Result<Signature, String>) {
        Ok(Signature { public_key: None, signature: None })
    }
}

} // verus!
