use ic_agent_core::certificate::{decode_certificate, decode_ranges};
use ic_agent_core::certification::extract_der;
use ic_agent_core::{signature_checks_passed, verify, AgentError, Certificate, Delegation, HashTree, Principal};
use serde_cbor::Value;
use std::collections::BTreeMap;

const BLS_DER_PREFIX: [u8; 37] = [
    0x30, 0x81, 0x82, 0x30, 0x1d, 0x06, 0x0d, 0x2b, 0x06, 0x01, 0x04, 0x01, 0x82, 0xdc, 0x7c, 0x05, 0x03, 0x01,
    0x02, 0x01, 0x06, 0x0c, 0x2b, 0x06, 0x01, 0x04, 0x01, 0x82, 0xdc, 0x7c, 0x05, 0x03, 0x02, 0x01, 0x03, 0x61,
    0x00,
];

fn integer(n: i128) -> Value {
    Value::Integer(n)
}

fn bytes(b: &[u8]) -> Value {
    Value::Bytes(b.to_vec())
}

fn labeled(l: &[u8], t: Value) -> Value {
    Value::Array(vec![integer(2), bytes(l), t])
}

fn fork(a: Value, b: Value) -> Value {
    Value::Array(vec![integer(1), a, b])
}

fn leaf(v: &[u8]) -> Value {
    Value::Array(vec![integer(3), bytes(v)])
}

fn text_map(entries: Vec<(&str, Value)>) -> Value {
    let mut m = BTreeMap::new();
    for (k, v) in entries {
        m.insert(Value::Text(k.to_string()), v);
    }
    Value::Map(m)
}

fn subnet_key() -> Vec<u8> {
    let mut k = BLS_DER_PREFIX.to_vec();
    k.extend_from_slice(&[0xAB; 96]);
    k
}

fn delegating_certificate(subnet: &[u8], low: &[u8], high: &[u8]) -> Certificate {
    let ranges = serde_cbor::to_vec(&Value::Array(vec![Value::Array(vec![bytes(low), bytes(high)])])).unwrap();
    let tree = labeled(
        b"subnet",
        labeled(subnet, fork(labeled(b"canister_ranges", leaf(&ranges)), labeled(b"public_key", leaf(&subnet_key())))),
    );
    let inner = text_map(vec![("tree", tree), ("signature", bytes(&[0x11; 48]))]);
    Certificate {
        tree: HashTree::Leaf(b"state".to_vec()),
        signature: vec![0x22; 48],
        delegation: Some(Delegation {
            subnet_id: Principal::from_slice(subnet),
            certificate: serde_cbor::to_vec(&inner).unwrap(),
        }),
    }
}

#[test]
fn certificate_without_delegation_uses_root_key() {
    let cert = Certificate { tree: HashTree::Empty, signature: vec![1, 2, 3], delegation: None };
    let checks = verify(&cert, Principal::from_slice(&[1]), false).unwrap();
    assert_eq!(checks.len(), 1);
    assert_eq!(checks[0].signature, vec![1, 2, 3]);
    assert_eq!(&checks[0].message[..14], b"\x0Dic-state-root");
    assert_eq!(&checks[0].message[14..], &HashTree::Empty.digest()[..]);
    assert_eq!(checks[0].public_key.len(), 96);
    assert_eq!(&checks[0].public_key[..4], &[0x81, 0x4c, 0x0e, 0x6e]);
}

#[test]
fn delegation_outside_ranges_is_not_authorized() {
    let cert = delegating_certificate(&[9, 9], &[0, 0, 5], &[0, 0, 8]);
    let outside = Principal::from_slice(&[0, 0, 9]);
    assert_eq!(verify(&cert, outside.copy(), false).err(), Some(AgentError::CertificateNotAuthorized));
    let checks = verify(&cert, outside, true).unwrap();
    assert_eq!(checks.len(), 2);
    assert_eq!(checks[0].signature, vec![0x11; 48]);
    assert_eq!(checks[1].signature, vec![0x22; 48]);
    assert_eq!(checks[1].public_key, vec![0xAB; 96]);
    assert_eq!(&checks[1].message[14..], &HashTree::Leaf(b"state".to_vec()).digest()[..]);
}

#[test]
fn delegation_inside_ranges_is_authorized() {
    let cert = delegating_certificate(&[9, 9], &[0, 0, 5], &[0, 0, 8]);
    for id in [&[0u8, 0, 5][..], &[0, 0, 7], &[0, 0, 8]] {
        let checks = verify(&cert, Principal::from_slice(id), false).unwrap();
        assert_eq!(checks.len(), 2);
    }
}

#[test]
fn malformed_delegation_is_invalid_data() {
    let cert = Certificate {
        tree: HashTree::Empty,
        signature: vec![],
        delegation: Some(Delegation { subnet_id: Principal::from_slice(&[1]), certificate: vec![0xff, 0x00] }),
    };
    assert_eq!(verify(&cert, Principal::from_slice(&[1]), true).err(), Some(AgentError::InvalidCborData));
}

#[test]
fn missing_subnet_entry_is_absent() {
    let cert = delegating_certificate(&[9, 9], &[0], &[9]);
    let mut other = cert;
    if let Some(d) = other.delegation.as_mut() {
        d.subnet_id = Principal::from_slice(&[9, 8]);
    }
    assert_eq!(verify(&other, Principal::from_slice(&[1]), true).err(), Some(AgentError::LookupPathAbsent));
}

#[test]
fn signature_results_decide() {
    assert_eq!(signature_checks_passed(&[true, true]), Ok(()));
    assert_eq!(signature_checks_passed(&[]), Ok(()));
    assert_eq!(signature_checks_passed(&[true, false]), Err(AgentError::CertificateVerificationFailed));
}

#[test]
fn der_key_extraction() {
    assert_eq!(extract_der(&subnet_key()), Ok(vec![0xAB; 96]));
    assert_eq!(
        extract_der(&[0u8; 10]),
        Err(AgentError::DerKeyLengthMismatch { expected: 133, actual: 10 })
    );
    let mut bad = subnet_key();
    bad[3] ^= 1;
    assert_eq!(extract_der(&bad), Err(AgentError::DerPrefixMismatch));
}

#[test]
fn cbor_decoding_reads_ranges() {
    let data = serde_cbor::to_vec(&Value::Array(vec![
        Value::Array(vec![bytes(&[1]), bytes(&[2, 3])]),
        Value::Array(vec![bytes(&[]), bytes(&[9])]),
    ]))
    .unwrap();
    let ranges = decode_ranges(&data).unwrap();
    assert_eq!(ranges.len(), 2);
    assert_eq!(ranges[0].0.as_slice(), &[1u8]);
    assert_eq!(ranges[0].1.as_slice(), &[2u8, 3]);
    assert_eq!(ranges[1].0.as_slice(), &[] as &[u8]);
    assert!(decode_ranges(&[0xff]).is_none());
    let not_pairs = serde_cbor::to_vec(&Value::Array(vec![Value::Array(vec![bytes(&[1])])])).unwrap();
    assert!(decode_ranges(&not_pairs).is_none());
}

#[test]
fn certificate_decoding_needs_tree_and_signature() {
    let good = serde_cbor::to_vec(&text_map(vec![
        ("tree", Value::Array(vec![integer(3), bytes(b"hi")])),
        ("signature", bytes(&[1])),
    ]))
    .unwrap();
    let c = decode_certificate(&good).unwrap();
    assert_eq!(c.signature, vec![1]);
    assert!(c.delegation.is_none());
    assert_eq!(c.tree.digest(), HashTree::Leaf(b"hi".to_vec()).digest());
    let bad = serde_cbor::to_vec(&text_map(vec![("tree", Value::Array(vec![integer(0)]))])).unwrap();
    assert!(decode_certificate(&bad).is_none());
    let bad_tree = serde_cbor::to_vec(&text_map(vec![("tree", Value::Array(vec![integer(7)])), ("signature", bytes(&[1]))])).unwrap();
    assert!(decode_certificate(&bad_tree).is_none());
    assert!(decode_certificate(&[0xff, 0x01]).is_none());
}

#[test]
fn certificate_with_delegation_decodes() {
    let cert = delegating_certificate(&[9, 9], &[0], &[9]);
    let inner = decode_certificate(&cert.delegation.as_ref().unwrap().certificate).unwrap();
    assert_eq!(inner.signature, vec![0x11; 48]);
    let outer = serde_cbor::to_vec(&text_map(vec![
        ("tree", Value::Array(vec![integer(0)])),
        ("signature", bytes(&[2])),
        ("delegation", text_map(vec![("subnet_id", bytes(&[9, 9])), ("certificate", bytes(&[1, 2]))])),
    ]))
    .unwrap();
    let d = decode_certificate(&outer).unwrap().delegation.unwrap();
    assert_eq!(d.subnet_id.as_slice(), &[9u8, 9]);
    assert_eq!(d.certificate, vec![1, 2]);
}

fn certificate_with_inner_tree(subnet: &[u8], tree: Value) -> Certificate {
    let inner = text_map(vec![("tree", tree), ("signature", bytes(&[0x11; 48]))]);
    Certificate {
        tree: HashTree::Leaf(b"state".to_vec()),
        signature: vec![0x22; 48],
        delegation: Some(Delegation {
            subnet_id: Principal::from_slice(subnet),
            certificate: serde_cbor::to_vec(&inner).unwrap(),
        }),
    }
}

#[test]
fn disabled_range_check_does_not_read_ranges() {
    let tree = labeled(b"subnet", labeled(&[9, 9], labeled(b"public_key", leaf(&subnet_key()))));
    let cert = certificate_with_inner_tree(&[9, 9], tree);
    let checks = verify(&cert, Principal::from_slice(&[1]), true).unwrap();
    assert_eq!(checks.len(), 2);
    assert_eq!(checks[1].public_key, vec![0xAB; 96]);
    assert_eq!(verify(&cert, Principal::from_slice(&[1]), false).err(), Some(AgentError::LookupPathAbsent));
}

#[test]
fn pruned_subnet_key_is_unknown() {
    let pruned = Value::Array(vec![integer(4), bytes(&[5; 32])]);
    let tree = labeled(b"subnet", labeled(&[9, 9], pruned));
    let cert = certificate_with_inner_tree(&[9, 9], tree);
    assert_eq!(verify(&cert, Principal::from_slice(&[1]), true).err(), Some(AgentError::LookupPathUnknown));
    assert_eq!(verify(&cert, Principal::from_slice(&[1]), false).err(), Some(AgentError::LookupPathUnknown));
    let hidden = fork(Value::Array(vec![integer(4), bytes(&[5; 32])]), labeled(b"time", leaf(&[1])));
    let cert = certificate_with_inner_tree(&[9, 9], hidden);
    assert_eq!(verify(&cert, Principal::from_slice(&[1]), false).err(), Some(AgentError::LookupPathUnknown));
}

#[test]
fn absent_subnet_key_is_absent() {
    let ranges = serde_cbor::to_vec(&Value::Array(vec![Value::Array(vec![bytes(&[0]), bytes(&[9])])])).unwrap();
    let tree = labeled(b"subnet", labeled(&[9, 9], labeled(b"canister_ranges", leaf(&ranges))));
    let cert = certificate_with_inner_tree(&[9, 9], tree);
    assert_eq!(verify(&cert, Principal::from_slice(&[1]), false).err(), Some(AgentError::LookupPathAbsent));
    assert_eq!(verify(&cert, Principal::from_slice(&[1]), true).err(), Some(AgentError::LookupPathAbsent));
}
