//! Certificate verification: the signature checks that make a certificate
//! trustworthy, following its delegation chain.
use vstd::prelude::*;
use crate::bytes::{append_bytes, bytes_equal};
use crate::cbor::cbor_decoded;
use crate::certificate::{
    canister_ranges_label, canister_ranges_label_vec, certificate_from_cbor, decode_certificate,
    decode_ranges, public_key_label, public_key_label_vec, ranges_from_cbor, subnet_label,
    subnet_label_vec, Certificate, Delegation,
};
use crate::error::AgentError;
use crate::hash_tree::{digest_of, lookup_path, lookup_spec, path_view, HashTree, Label, LookupOutcome, LookupResult};
use crate::principal::{principal_is_within_ranges, within_ranges, Principal};

verus! {

/// How many delegations deep verification follows before it gives up.
pub const MAX_DELEGATION_DEPTH: u64 = 8;

/// The DER-encoded BLS public key of the platform's root authority.
pub open spec fn ic_root_key() -> Seq<u8> {
    seq![48u8, 129, 130, 48, 29, 6, 13, 43, 6, 1, 4, 1, 130, 220, 124, 5, 3, 1, 2, 1, 6, 12, 43, 6, 1, 4, 1, 130, 220, 124, 5, 3, 2, 1, 3, 97, 0, 129, 76, 14, 110, 199, 31, 171, 88, 59, 8, 189, 129, 55, 60, 37, 92, 60, 55, 27, 46, 132, 134, 60, 152, 164, 241, 224, 139, 116, 35, 93, 20, 251, 93, 156, 12, 213, 70, 217, 104, 95, 145, 58, 12, 11, 44, 197, 52, 21, 131, 191, 75, 67, 146, 228, 103, 219, 150, 214, 91, 155, 180, 203, 113, 113, 18, 248, 71, 46, 13, 90, 77, 20, 80, 95, 253, 116, 132, 176, 18, 145, 9, 28, 95, 135, 185, 136, 131, 70, 63, 152, 9, 26, 11, 170, 174]
}

fn ic_root_key_vec() -> (r: Vec<u8>)
    ensures
        r@ == ic_root_key(),
{
    let r = vec![48u8, 129, 130, 48, 29, 6, 13, 43, 6, 1, 4, 1, 130, 220, 124, 5, 3, 1, 2, 1, 6, 12, 43, 6, 1, 4, 1, 130, 220, 124, 5, 3, 2, 1, 3, 97, 0, 129, 76, 14, 110, 199, 31, 171, 88, 59, 8, 189, 129, 55, 60, 37, 92, 60, 55, 27, 46, 132, 134, 60, 152, 164, 241, 224, 139, 116, 35, 93, 20, 251, 93, 156, 12, 213, 70, 217, 104, 95, 145, 58, 12, 11, 44, 197, 52, 21, 131, 191, 75, 67, 146, 228, 103, 219, 150, 214, 91, 155, 180, 203, 113, 113, 18, 248, 71, 46, 13, 90, 77, 20, 80, 95, 253, 116, 132, 176, 18, 145, 9, 28, 95, 135, 185, 136, 131, 70, 63, 152, 9, 26, 11, 170, 174];
    assert(r@ =~= ic_root_key());
    r
}

/// The DER header of a BLS12-381 public key.
pub open spec fn bls_der_prefix() -> Seq<u8> {
    seq![48u8, 129, 130, 48, 29, 6, 13, 43, 6, 1, 4, 1, 130, 220, 124, 5, 3, 1, 2, 1, 6, 12, 43, 6, 1, 4, 1, 130, 220, 124, 5, 3, 2, 1, 3, 97, 0]
}

fn bls_der_prefix_vec() -> (r: Vec<u8>)
    ensures
        r@ == bls_der_prefix(),
{
    let r = vec![48u8, 129, 130, 48, 29, 6, 13, 43, 6, 1, 4, 1, 130, 220, 124, 5, 3, 1, 2, 1, 6, 12, 43, 6, 1, 4, 1, 130, 220, 124, 5, 3, 2, 1, 3, 97, 0];
    assert(r@ =~= bls_der_prefix());
    r
}

/// The domain separator of state-root signatures: a length byte and "ic-state-root".
pub open spec fn state_root_domain_separator() -> Seq<u8> {
    seq![13u8, 105, 99, 45, 115, 116, 97, 116, 101, 45, 114, 111, 111, 116]
}

fn state_root_domain_separator_vec() -> (r: Vec<u8>)
    ensures
        r@ == state_root_domain_separator(),
{
    let r = vec![13u8, 105, 99, 45, 115, 116, 97, 116, 101, 45, 114, 111, 111, 116];
    assert(r@ =~= state_root_domain_separator());
    r
}

/// A BLS signature check that a certificate needs: `signature` must verify
/// over `message` under the raw 96-byte `public_key`.
pub struct SignatureCheck {
    pub signature: Vec<u8>,
    pub message: Vec<u8>,
    pub public_key: Vec<u8>,
}

impl View for SignatureCheck {
    type V = (Seq<u8>, Seq<u8>, Seq<u8>);

    open spec fn view(&self) -> (Seq<u8>, Seq<u8>, Seq<u8>) {
        (self.signature@, self.message@, self.public_key@)
    }
}

pub open spec fn bytes_result(r: Result<Vec<u8>, AgentError>) -> Result<Seq<u8>, AgentError> {
    match r {
        Ok(v) => Ok(v@),
        Err(e) => Err(e),
    }
}

pub open spec fn checks_result(r: Result<Vec<SignatureCheck>, AgentError>) -> Result<
    Seq<(Seq<u8>, Seq<u8>, Seq<u8>)>,
    AgentError,
> {
    match r {
        Ok(v) => Ok(v@.map_values(|c: SignatureCheck| c@)),
        Err(e) => Err(e),
    }
}

/// The leaf value at `path`, or the error that says why there is none.
pub open spec fn lookup_value_spec(tree: HashTree, path: Seq<Seq<u8>>) -> Result<Seq<u8>, AgentError> {
    match lookup_spec(path, tree) {
        LookupOutcome::Found(v) => Ok(v),
        LookupOutcome::Absent => Err(AgentError::LookupPathAbsent),
        LookupOutcome::Unknown => Err(AgentError::LookupPathUnknown),
        LookupOutcome::Error => Err(AgentError::LookupPathError),
    }
}

/// The leaf value at `path` in `tree`, or the error that says why there is none.
pub fn lookup_value(tree: &HashTree, path: &[Label]) -> (r: Result<Vec<u8>, AgentError>)
    ensures
        bytes_result(r) == lookup_value_spec(*tree, path_view(path@)),
{
    match lookup_path(tree, path) {
        LookupResult::Found(v) => Ok(v),
        LookupResult::Absent => Err(AgentError::LookupPathAbsent),
        LookupResult::Unknown => Err(AgentError::LookupPathUnknown),
        LookupResult::Error => Err(AgentError::LookupPathError),
    }
}

/// The raw key inside a DER-encoded BLS public key: the 96 bytes after the
/// 37-byte header of a 133-byte encoding.
pub open spec fn extract_der_spec(der: Seq<u8>) -> Result<Seq<u8>, AgentError> {
    if der.len() != 133 {
        Err(AgentError::DerKeyLengthMismatch { expected: 133, actual: der.len() as usize })
    } else if der.subrange(0, 37) != bls_der_prefix() {
        Err(AgentError::DerPrefixMismatch)
    } else {
        Ok(der.subrange(37, 133))
    }
}

fn sub_bytes(b: &[u8], from: usize, to: usize) -> (r: Vec<u8>)
    requires
        from <= to <= b@.len(),
    ensures
        r@ == b@.subrange(from as int, to as int),
{
    let mut r: Vec<u8> = Vec::new();
    let mut i: usize = from;
    while i < to
        invariant
            from <= i <= to <= b@.len(),
            r@ == b@.subrange(from as int, i as int),
        decreases to - i,
    {
        r.push(b[i]);
        i = i + 1;
        assert(r@ =~= b@.subrange(from as int, i as int));
    }
    r
}

/// Takes the raw BLS key out of its DER encoding.
pub fn extract_der(der: &[u8]) -> (r: Result<Vec<u8>, AgentError>)
    ensures
        bytes_result(r) == extract_der_spec(der@),
{
    if der.len() != 133 {
        return Err(AgentError::DerKeyLengthMismatch { expected: 133, actual: der.len() });
    }
    let head = sub_bytes(der, 0, 37);
    let prefix = bls_der_prefix_vec();
    if !bytes_equal(head.as_slice(), prefix.as_slice()) {
        return Err(AgentError::DerPrefixMismatch);
    }
    Ok(sub_bytes(der, 37, 133))
}

/// The path of a subnet's canister ranges.
pub open spec fn ranges_path(subnet: Seq<u8>) -> Seq<Seq<u8>> {
    seq![subnet_label(), subnet, canister_ranges_label()]
}

/// The path of a subnet's public key.
pub open spec fn public_key_path(subnet: Seq<u8>) -> Seq<Seq<u8>> {
    seq![subnet_label(), subnet, public_key_label()]
}

fn subnet_path(subnet: &Principal, last: Vec<u8>) -> (r: Vec<Label>)
    ensures
        path_view(r@) == seq![subnet_label(), subnet@, last@],
{
    let r = vec![subnet_label_vec(), subnet.bytes.clone(), last];
    assert(path_view(r@) =~= seq![subnet_label(), subnet@, last@]);
    r
}

/// The DER-encoded key of a delegated subnet, read from the tree of the
/// certificate that vouches for it. Unless range checking is disabled, the
/// subnet's canister ranges are then read too and must hold the canister.
pub open spec fn subnet_key_spec(tree: HashTree, subnet: Seq<u8>, ecid: Seq<u8>, disable: bool) -> Result<
    Seq<u8>,
    AgentError,
> {
    match lookup_value_spec(tree, public_key_path(subnet)) {
        Err(e) => Err(e),
        Ok(pk) => if disable {
            Ok(pk)
        } else {
            match lookup_value_spec(tree, ranges_path(subnet)) {
                Err(e) => Err(e),
                Ok(rb) => match cbor_decoded(rb) {
                    None => Err(AgentError::InvalidCborData),
                    Some(rv) => match ranges_from_cbor(rv) {
                        None => Err(AgentError::InvalidCborData),
                        Some(ranges) => if within_ranges(ecid, ranges) {
                            Ok(pk)
                        } else {
                            Err(AgentError::CertificateNotAuthorized)
                        },
                    },
                },
            }
        },
    }
}

/// The check of a certificate's own signature under `key`.
pub open spec fn own_check(cert: Certificate, key: Seq<u8>) -> (Seq<u8>, Seq<u8>, Seq<u8>) {
    (cert.signature@, state_root_domain_separator() + digest_of(cert.tree), key)
}

/// The checks of the delegation chain of a certificate with `delegation`,
/// and the DER-encoded key that the certificate itself is signed with: the
/// root key without a delegation, else the delegated subnet's key, read from
/// the vouching certificate once that has been verified in turn. `depth` is
/// the number of delegations that may still be followed.
pub open spec fn delegation_chain_spec(delegation: Option<Delegation>, ecid: Seq<u8>, disable: bool, depth: nat) -> Result<
    (Seq<(Seq<u8>, Seq<u8>, Seq<u8>)>, Seq<u8>),
    AgentError,
>
    decreases depth, 0nat,
{
    match delegation {
        None => Ok((Seq::empty(), ic_root_key())),
        Some(d) => if depth == 0 {
            Err(AgentError::CertificateHasTooManyDelegations)
        } else {
            match cbor_decoded(d.certificate@) {
                None => Err(AgentError::InvalidCborData),
                Some(cv) => match certificate_from_cbor(cv) {
                    None => Err(AgentError::InvalidCborData),
                    Some(inner) => match verify_spec(inner, ecid, disable, (depth - 1) as nat) {
                        Err(e) => Err(e),
                        Ok(inner_checks) => match subnet_key_spec(inner.tree, d.subnet_id@, ecid, disable) {
                            Err(e) => Err(e),
                            Ok(der) => Ok((inner_checks, der)),
                        },
                    },
                },
            }
        },
    }
}

/// The signature checks that make `cert` trustworthy for the canister
/// `ecid`, those of the delegation chain first, or the error that stops it.
pub open spec fn verify_spec(cert: Certificate, ecid: Seq<u8>, disable: bool, depth: nat) -> Result<
    Seq<(Seq<u8>, Seq<u8>, Seq<u8>)>,
    AgentError,
>
    decreases depth, 1nat,
{
    match delegation_chain_spec(cert.delegation, ecid, disable, depth) {
        Err(e) => Err(e),
        Ok((checks, der)) => match extract_der_spec(der) {
            Err(e) => Err(e),
            Ok(key) => Ok(checks.push(own_check(cert, key))),
        },
    }
}

fn subnet_key(tree: &HashTree, subnet: &Principal, ecid: &Principal, disable: bool) -> (r: Result<Vec<u8>, AgentError>)
    ensures
        bytes_result(r) == subnet_key_spec(*tree, subnet@, ecid@, disable),
{
    let kpath = subnet_path(subnet, public_key_label_vec());
    let pk = match lookup_value(tree, kpath.as_slice()) {
        Ok(k) => k,
        Err(e) => {
            return Err(e);
        },
    };
    if disable {
        return Ok(pk);
    }
    let rpath = subnet_path(subnet, canister_ranges_label_vec());
    let rb = match lookup_value(tree, rpath.as_slice()) {
        Ok(b) => b,
        Err(e) => {
            return Err(e);
        },
    };
    let ranges = match decode_ranges(rb.as_slice()) {
        Some(r) => r,
        None => {
            return Err(AgentError::InvalidCborData);
        },
    };
    if principal_is_within_ranges(ecid, ranges.as_slice()) {
        Ok(pk)
    } else {
        Err(AgentError::CertificateNotAuthorized)
    }
}

pub open spec fn chain_result(r: Result<(Vec<SignatureCheck>, Vec<u8>), AgentError>) -> Result<
    (Seq<(Seq<u8>, Seq<u8>, Seq<u8>)>, Seq<u8>),
    AgentError,
> {
    match r {
        Ok((checks, der)) => Ok((checks@.map_values(|c: SignatureCheck| c@), der@)),
        Err(e) => Err(e),
    }
}

/// Resolves the delegation chain of a certificate with `delegation`: the
/// checks it needs, and the DER-encoded key that the certificate is signed with.
fn check_delegation(
    delegation: &Option<Delegation>,
    effective_canister_id: &Principal,
    disable_range_check: bool,
    depth: u64,
) -> (r: Result<(Vec<SignatureCheck>, Vec<u8>), AgentError>)
    ensures
        chain_result(r) == delegation_chain_spec(*delegation, effective_canister_id@, disable_range_check, depth as nat),
    decreases depth, 0nat,
{
    match delegation {
        None => {
            let checks: Vec<SignatureCheck> = Vec::new();
            assert(checks@.map_values(|c: SignatureCheck| c@) =~= Seq::empty());
            Ok((checks, ic_root_key_vec()))
        },
        Some(d) => {
            if depth == 0 {
                return Err(AgentError::CertificateHasTooManyDelegations);
            }
            let inner = match decode_certificate(d.certificate.as_slice()) {
                Some(c) => c,
                None => {
                    return Err(AgentError::InvalidCborData);
                },
            };
            let checks = match verify_at_depth(&inner, effective_canister_id, disable_range_check, depth - 1) {
                Ok(c) => c,
                Err(e) => {
                    return Err(e);
                },
            };
            match subnet_key(&inner.tree, &d.subnet_id, effective_canister_id, disable_range_check) {
                Ok(der) => Ok((checks, der)),
                Err(e) => Err(e),
            }
        },
    }
}

/// The signature checks that make `cert` trustworthy, following at most
/// `depth` delegations.
fn verify_at_depth(
    cert: &Certificate,
    effective_canister_id: &Principal,
    disable_range_check: bool,
    depth: u64,
) -> (r: Result<Vec<SignatureCheck>, AgentError>)
    ensures
        checks_result(r) == verify_spec(*cert, effective_canister_id@, disable_range_check, depth as nat),
    decreases depth, 1nat,
{
    let (mut checks, der) = match check_delegation(&cert.delegation, effective_canister_id, disable_range_check, depth) {
        Ok(p) => p,
        Err(e) => {
            return Err(e);
        },
    };
    let key = match extract_der(der.as_slice()) {
        Ok(k) => k,
        Err(e) => {
            return Err(e);
        },
    };
    let mut message = state_root_domain_separator_vec();
    let root_hash = cert.tree.digest();
    append_bytes(&mut message, root_hash.as_slice());
    let ghost before = checks@;
    let check = SignatureCheck { signature: cert.signature.clone(), message, public_key: key };
    checks.push(check);
    assert(checks@.map_values(|c: SignatureCheck| c@) =~= before.map_values(|c: SignatureCheck| c@).push(own_check(*cert, key@)));
    Ok(checks)
}

/// Verifies a certificate for the canister `effective_canister_id`: decodes
/// and verifies its delegation chain, checks (unless disabled) that the
/// delegated subnet is responsible for the canister, and returns the BLS
/// signature checks that must all pass, those of the chain first and the
/// certificate's own last. A certificate without a delegation is signed
/// with the root key.
pub fn verify(
    cert: &Certificate,
    effective_canister_id: Principal,
    disable_range_check: bool,
) -> (r: Result<Vec<SignatureCheck>, AgentError>)
    ensures
        checks_result(r) == verify_spec(*cert, effective_canister_id@, disable_range_check, MAX_DELEGATION_DEPTH as nat),
{
    verify_at_depth(cert, &effective_canister_id, disable_range_check, MAX_DELEGATION_DEPTH)
}

/// The root key is a well-formed DER encoding of a BLS key.
pub proof fn lemma_root_key_is_der()
    ensures
        extract_der_spec(ic_root_key()) is Ok,
{
    assert(ic_root_key().subrange(0, 37) =~= bls_der_prefix());
}

/// A certificate delegated to a subnet whose canister ranges leave out the
/// effective canister is refused as not authorized while ranges are checked.
/// With the check disabled the ranges are not read, and the certificate
/// passes as far as the library decides, that is whenever the subnet's key is
/// a well-formed DER key: what remains is its signature checks.
pub proof fn lemma_range_check_decides(
    cert: Certificate,
    ecid: Seq<u8>,
    depth: nat,
    d: Delegation,
    cv: crate::cbor::CborValue,
    inner: Certificate,
    pk: Seq<u8>,
    rb: Seq<u8>,
    rv: crate::cbor::CborValue,
    ranges: Seq<(Seq<u8>, Seq<u8>)>,
)
    requires
        cert.delegation == Some(d),
        depth > 0,
        cbor_decoded(d.certificate@) == Some(cv),
        certificate_from_cbor(cv) == Some(inner),
        inner.delegation is None,
        lookup_value_spec(inner.tree, public_key_path(d.subnet_id@)) == Ok::<Seq<u8>, AgentError>(pk),
        lookup_value_spec(inner.tree, ranges_path(d.subnet_id@)) == Ok::<Seq<u8>, AgentError>(rb),
        cbor_decoded(rb) == Some(rv),
        ranges_from_cbor(rv) == Some(ranges),
        !within_ranges(ecid, ranges),
    ensures
        verify_spec(cert, ecid, false, depth) == Err::<Seq<(Seq<u8>, Seq<u8>, Seq<u8>)>, AgentError>(
            AgentError::CertificateNotAuthorized,
        ),
        verify_spec(cert, ecid, true, depth) is Ok <==> extract_der_spec(pk) is Ok,
{
    lemma_root_key_is_der();
    assert(verify_spec(inner, ecid, true, (depth - 1) as nat) is Ok);
    assert(verify_spec(inner, ecid, false, (depth - 1) as nat) is Ok);
}

/// With range checking disabled, a delegated subnet's ranges play no part:
/// once the vouching certificate verifies, the delegation resolves to the
/// subnet's key whenever that key is found, whatever the ranges entry is.
pub proof fn lemma_disabled_range_check_ignores_ranges(
    ecid: Seq<u8>,
    depth: nat,
    d: Delegation,
    cv: crate::cbor::CborValue,
    inner: Certificate,
    inner_checks: Seq<(Seq<u8>, Seq<u8>, Seq<u8>)>,
    pk: Seq<u8>,
)
    requires
        depth > 0,
        cbor_decoded(d.certificate@) == Some(cv),
        certificate_from_cbor(cv) == Some(inner),
        verify_spec(inner, ecid, true, (depth - 1) as nat) == Ok::<Seq<(Seq<u8>, Seq<u8>, Seq<u8>)>, AgentError>(inner_checks),
        lookup_value_spec(inner.tree, public_key_path(d.subnet_id@)) == Ok::<Seq<u8>, AgentError>(pk),
    ensures
        delegation_chain_spec(Some(d), ecid, true, depth) == Ok::<(Seq<(Seq<u8>, Seq<u8>, Seq<u8>)>, Seq<u8>), AgentError>((inner_checks, pk)),
{
}

/// A subnet key hidden in a pruned subtree is unknown: once the vouching
/// certificate verifies, the delegation fails with `LookupPathUnknown`,
/// never as absent, never as unauthorized and never with a key.
pub proof fn lemma_pruned_subnet_key_is_unknown(
    ecid: Seq<u8>,
    disable: bool,
    depth: nat,
    d: Delegation,
    cv: crate::cbor::CborValue,
    inner: Certificate,
)
    requires
        depth > 0,
        cbor_decoded(d.certificate@) == Some(cv),
        certificate_from_cbor(cv) == Some(inner),
        verify_spec(inner, ecid, disable, (depth - 1) as nat) is Ok,
        lookup_spec(public_key_path(d.subnet_id@), inner.tree) == LookupOutcome::Unknown,
    ensures
        delegation_chain_spec(Some(d), ecid, disable, depth) == Err::<(Seq<(Seq<u8>, Seq<u8>, Seq<u8>)>, Seq<u8>), AgentError>(
            AgentError::LookupPathUnknown,
        ),
{
}

/// The outcome of a certificate's signature checks: success exactly when
/// every check passed.
pub fn signature_checks_passed(results: &[bool]) -> (r: Result<(), AgentError>)
    ensures
        r is Ok == (forall|i: int| 0 <= i < results@.len() ==> results@[i]),
        r matches Err(e) ==> e == AgentError::CertificateVerificationFailed,
{
    let mut i: usize = 0;
    while i < results.len()
        invariant
            i <= results@.len(),
            forall|j: int| 0 <= j < i ==> results@[j],
        decreases results.len() - i,
    {
        if !results[i] {
            return Err(AgentError::CertificateVerificationFailed);
        }
        i = i + 1;
    }
    Ok(())
}

} // verus!
