//! Errors of the library.
use vstd::prelude::*;

verus! {

/// Why an operation failed.
#[derive(Debug, PartialEq, Eq, Clone, Copy)]
pub enum AgentError {
    /// Encoded data (a certificate, a delegation, a range list) is malformed.
    InvalidCborData,
    /// A signature check of a certificate failed.
    CertificateVerificationFailed,
    /// The certificate's subnet is not responsible for the canister.
    CertificateNotAuthorized,
    /// The delegation chain is longer than the library follows.
    CertificateHasTooManyDelegations,
    /// The tree proves that the path is absent.
    LookupPathAbsent,
    /// A pruned subtree hides the path.
    LookupPathUnknown,
    /// The path ends on an inner node of the tree.
    LookupPathError,
    /// A DER-encoded key has the wrong length.
    DerKeyLengthMismatch { expected: usize, actual: usize },
    /// A DER-encoded key does not start with the expected header.
    DerPrefixMismatch,
}

} // verus!
