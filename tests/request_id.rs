use ic_agent_core::request_id::leb128_encode;
use ic_agent_core::{request_id_of_fields, to_request_id, update_content, CallRequestContent, Principal, RequestField, RequestValue};
use sha2::Digest;

fn hex(b: &[u8]) -> String {
    b.iter().map(|x| format!("{:02x}", x)).collect()
}

fn bytes_field(name: &str, v: &[u8]) -> RequestField {
    RequestField { name: name.as_bytes().to_vec(), value: RequestValue::Bytes(v.to_vec()) }
}

fn nat_field(name: &str, n: u64) -> RequestField {
    RequestField { name: name.as_bytes().to_vec(), value: RequestValue::Nat(n) }
}

fn sample_fields() -> Vec<RequestField> {
    vec![
        bytes_field("request_type", b"call"),
        bytes_field("sender", &[4]),
        nat_field("ingress_expiry", 1685570400000000000),
        bytes_field("canister_id", &[0, 0, 0, 0, 0, 0, 4, 0xD2]),
        bytes_field("method_name", b"hello"),
        bytes_field("arg", b"DIDL\x00\xFD*"),
    ]
}

#[test]
fn leb128_known_values() {
    assert_eq!(leb128_encode(0), vec![0]);
    assert_eq!(leb128_encode(127), vec![0x7f]);
    assert_eq!(leb128_encode(128), vec![0x80, 0x01]);
    assert_eq!(leb128_encode(624485), vec![0xE5, 0x8E, 0x26]);
    assert_eq!(leb128_encode(u64::MAX).len(), 10);
}

#[test]
fn request_id_of_known_call() {
    let id = request_id_of_fields(&sample_fields());
    assert_eq!(hex(id.as_slice()), "1d1091364d6bb8a6c16b203ee75467d59ead468f523eb058880ae8ec80e2b101");
}

#[test]
fn request_id_ignores_field_order() {
    let mut reversed = sample_fields();
    reversed.reverse();
    let mut rotated = sample_fields();
    rotated.rotate_left(2);
    let a = request_id_of_fields(&sample_fields());
    assert_eq!(a, request_id_of_fields(&reversed));
    assert_eq!(a, request_id_of_fields(&rotated));
}

#[test]
fn absent_field_differs_from_empty_field() {
    let without = sample_fields();
    let mut with_empty = sample_fields();
    with_empty.push(bytes_field("nonce", &[]));
    assert_ne!(request_id_of_fields(&without), request_id_of_fields(&with_empty));
}

#[test]
fn empty_request_hashes_empty_string() {
    let id = request_id_of_fields(&vec![]);
    let expected = sha2::Sha256::digest(b"").to_vec();
    assert_eq!(id.as_slice(), &expected[..]);
}

#[test]
fn call_content_id_matches_its_fields() {
    let content = update_content(
        Principal::from_slice(&[4]),
        &Principal::from_slice(&[0, 0, 0, 0, 0, 0, 4, 0xD2]),
        "hello",
        b"DIDL\x00\xFD*",
        vec![9, 9],
        1685570400000000000,
    )
    .unwrap();
    let mut fields = sample_fields();
    fields.push(bytes_field("nonce", &[9, 9]));
    assert_eq!(to_request_id(&content), request_id_of_fields(&fields));
    let CallRequestContent::CallRequest { nonce, method_name, .. } = content;
    assert_eq!(nonce, Some(vec![9, 9]));
    assert_eq!(method_name, "hello");
}

#[test]
fn call_content_without_nonce_matches_known_id() {
    let content = CallRequestContent::CallRequest {
        nonce: None,
        ingress_expiry: 1685570400000000000,
        sender: Principal::from_slice(&[4]),
        canister_id: Principal::from_slice(&[0, 0, 0, 0, 0, 0, 4, 0xD2]),
        method_name: "hello".to_string(),
        arg: b"DIDL\x00\xFD*".to_vec(),
    };
    assert_eq!(hex(to_request_id(&content).as_slice()), "1d1091364d6bb8a6c16b203ee75467d59ead468f523eb058880ae8ec80e2b101");
}

fn sha(b: &[u8]) -> Vec<u8> {
    sha2::Sha256::digest(b).to_vec()
}

#[test]
fn array_values_hash_their_items() {
    let fields = vec![RequestField {
        name: b"paths".to_vec(),
        value: RequestValue::Array(vec![
            RequestValue::Array(vec![RequestValue::Bytes(b"time".to_vec())]),
            RequestValue::Nat(300),
        ]),
    }];
    let inner = sha(&sha(b"time"));
    let mut items = inner.clone();
    items.extend_from_slice(&sha(&[0xAC, 0x02]));
    let mut pair = sha(b"paths");
    pair.extend_from_slice(&sha(&items));
    assert_eq!(request_id_of_fields(&fields).as_slice(), &sha(&pair)[..]);
}

#[test]
fn read_state_id_matches_its_fields() {
    let paths = vec![vec![b"request_status".to_vec(), vec![1, 2, 3]], vec![b"time".to_vec()]];
    let content = ic_agent_core::read_state_content(Principal::from_slice(&[4]), paths.clone(), 77).unwrap();
    let fields = vec![
        bytes_field("request_type", b"read_state"),
        bytes_field("sender", &[4]),
        RequestField {
            name: b"paths".to_vec(),
            value: RequestValue::Array(
                paths
                    .iter()
                    .map(|p| RequestValue::Array(p.iter().map(|l| RequestValue::Bytes(l.clone())).collect()))
                    .collect(),
            ),
        },
        nat_field("ingress_expiry", 77),
    ];
    assert_eq!(ic_agent_core::read_state_request_id(&content), request_id_of_fields(&fields));
    let mut encoded = Vec::new();
    for p in &paths {
        let mut labels = Vec::new();
        for l in p {
            labels.extend_from_slice(&sha(l));
        }
        encoded.extend_from_slice(&sha(&labels));
    }
    let mut pairs = vec![
        [sha(b"request_type"), sha(b"read_state")].concat(),
        [sha(b"sender"), sha(&[4])].concat(),
        [sha(b"paths"), sha(&encoded)].concat(),
        [sha(b"ingress_expiry"), sha(&[77])].concat(),
    ];
    pairs.sort();
    assert_eq!(ic_agent_core::read_state_request_id(&content).as_slice(), &sha(&pairs.concat())[..]);
}
