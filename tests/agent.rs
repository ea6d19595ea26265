use ed25519_dalek::{Signer, SigningKey, Verifier, VerifyingKey};
use ic_agent_core::{
    construct_message, expiry_date_at, get_expiry_date, read_state_content, sign, to_request_id,
    update_content, AnonymousIdentity, Identity, Principal, ReadStateContent, Signature,
};
use sha2::Digest;

const ED25519_DER_PREFIX: [u8; 12] = [0x30, 0x2a, 0x30, 0x05, 0x06, 0x03, 0x2b, 0x65, 0x70, 0x03, 0x21, 0x00];

struct KeyPairIdentity {
    key: SigningKey,
}

impl Identity for KeyPairIdentity {
    fn sender(&self) -> Result<Principal, String> {
        Ok(Principal::anonymous())
    }

    fn sign(&self, blob: &[u8]) -> Result<Signature, String> {
        let mut der = ED25519_DER_PREFIX.to_vec();
        der.extend_from_slice(self.key.verifying_key().as_bytes());
        Ok(Signature { public_key: Some(der), signature: Some(self.key.sign(blob).to_bytes().to_vec()) })
    }
}

fn recomputed_id(fields: &[(&[u8], Vec<u8>)]) -> Vec<u8> {
    let mut pairs: Vec<Vec<u8>> = fields
        .iter()
        .map(|(k, v)| {
            let mut p = sha2::Sha256::digest(k).to_vec();
            p.extend_from_slice(&sha2::Sha256::digest(v));
            p
        })
        .collect();
    pairs.sort();
    sha2::Sha256::digest(pairs.concat()).to_vec()
}

fn leb(mut n: u64) -> Vec<u8> {
    let mut out = vec![];
    while n >= 128 {
        out.push((n % 128 + 128) as u8);
        n /= 128;
    }
    out.push(n as u8);
    out
}

#[test]
fn signed_call_end_to_end() {
    let identity = KeyPairIdentity { key: SigningKey::from_bytes(&[7u8; 32]) };
    let sender = identity.sender().unwrap();
    let canister = Principal::from_slice(&[0, 0, 0, 0, 0, 0, 0, 1, 1, 1]);
    let expiry: u64 = 1_700_000_000_000_000_000;
    let content = update_content(sender.copy(), &canister, "greet", b"hi", vec![1, 2, 3], expiry).unwrap();
    let request_id = to_request_id(&content);
    let blob = construct_message(&request_id);
    assert_eq!(&blob[..11], b"\x0Aic-request");
    assert_eq!(&blob[11..], request_id.as_slice());
    assert_eq!(blob.len(), 43);
    let sig = identity.sign(&blob).unwrap();
    let signed = sign(
        sender,
        &canister,
        canister.copy(),
        "greet",
        b"hi",
        vec![1, 2, 3],
        expiry,
        sig.signature.clone().unwrap(),
    )
    .unwrap();
    let expected = recomputed_id(&[
        (b"request_type", b"call".to_vec()),
        (b"canister_id", canister.as_slice().to_vec()),
        (b"method_name", b"greet".to_vec()),
        (b"arg", b"hi".to_vec()),
        (b"nonce", vec![1, 2, 3]),
        (b"sender", vec![4]),
        (b"ingress_expiry", leb(expiry)),
    ]);
    assert_eq!(signed.request_id.as_slice(), &expected[..]);
    assert_eq!(signed.request_id, request_id);
    assert_eq!(signed.method_name, "greet");
    assert_eq!(signed.arg, b"hi".to_vec());
    assert_eq!(signed.nonce, Some(vec![1, 2, 3]));
    assert_eq!(signed.ingress_expiry, expiry);
    assert_eq!(signed.effective_canister_id.as_slice(), canister.as_slice());
    let der = sig.public_key.unwrap();
    assert_eq!(&der[..12], &ED25519_DER_PREFIX);
    let key_bytes: [u8; 32] = der[12..].try_into().unwrap();
    let vk = VerifyingKey::from_bytes(&key_bytes).unwrap();
    let s = ed25519_dalek::Signature::from_slice(&signed.signed_update).unwrap();
    assert!(vk.verify(&construct_message(&signed.request_id), &s).is_ok());
    let mut other = construct_message(&signed.request_id);
    other[11] ^= 1;
    assert!(vk.verify(&other, &s).is_err());
}

#[test]
fn anonymous_identity_signs_nothing() {
    let a = AnonymousIdentity;
    assert_eq!(a.sender().unwrap().as_slice(), &[4u8]);
    let s = a.sign(b"anything").unwrap();
    assert!(s.public_key.is_none());
    assert!(s.signature.is_none());
}

#[test]
fn expiry_at_mocked_now() {
    assert_eq!(expiry_date_at(300_000_000_000, 1_000_000_000_000), 1_240_000_000_000);
}

#[test]
fn expiry_saturates() {
    assert_eq!(expiry_date_at(0, 0), 0);
    assert_eq!(expiry_date_at(10, 20), 0);
    assert_eq!(expiry_date_at(u128::MAX, 5), u64::MAX);
    let top = u64::MAX as u128 + 60_000_000_000;
    assert_eq!(expiry_date_at(top, 0), u64::MAX);
    assert_eq!(expiry_date_at(top + 1, 0), u64::MAX);
    assert_eq!(expiry_date_at(top - 1, 0), u64::MAX - 1);
}

#[test]
fn expiry_from_now_is_in_the_future() {
    let e = get_expiry_date(std::time::Duration::from_secs(300)).unwrap();
    let now = std::time::SystemTime::now().duration_since(std::time::UNIX_EPOCH).unwrap().as_nanos() as u64;
    assert!(e >= now + 239_000_000_000);
    assert!(e <= now + 300_000_000_000);
}

#[test]
fn read_state_content_keeps_its_fields() {
    let paths = vec![vec![b"time".to_vec()], vec![b"request_status".to_vec(), vec![1, 2]]];
    let ReadStateContent::ReadStateRequest { sender, paths: p, ingress_expiry } =
        read_state_content(Principal::from_slice(&[4]), paths.clone(), 42).unwrap();
    assert_eq!(sender.as_slice(), &[4u8]);
    assert_eq!(p, paths);
    assert_eq!(ingress_expiry, 42);
}

#[test]
fn default_signature_is_empty() {
    let s = Signature::default();
    assert!(s.public_key.is_none());
    assert!(s.signature.is_none());
}
