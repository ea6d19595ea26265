//! Decoded CBOR data items, as the certificate logic reads them.
use vstd::prelude::*;

verus! {

/// One CBOR data item.
pub enum CborValue {
    Null,
    Bool(bool),
    Integer(i128),
    Bytes(Vec<u8>),
    Text(String),
    Array(Vec<CborValue>),
    /// Map entries, in the decoder's order.
    Entries(Vec<(CborValue, CborValue)>),
    Tag(u64, Box<CborValue>),
    /// A floating-point number or a simple value, which this library never reads.
    Other,
}

#[verifier::external_type_specification]
#[verifier::external_body]
pub struct ExCborValue(serde_cbor::Value);

/// The data item that a byte string decodes to, if it is one well-formed item.
pub uninterp spec fn cbor_decoded(data: Seq<u8>) -> Option<CborValue>;

/// Relies on serde_cbor::from_slice into serde_cbor::Value: it decodes the one
/// data item that spans the whole input, or fails, and the outcome depends on
/// the input alone.
#[verifier::external_body]
pub(crate) fn decode_cbor(data: &[u8]) -> (r: Option<CborValue>)
    ensures
        r == cbor_decoded(data@),
{
    serde_cbor::from_slice::<serde_cbor::Value>(data).ok().map(from_serde_value)
}

/// Relies on the variants of serde_cbor::Value: moves each one's contents into
/// the matching variant of `CborValue`.
#[verifier::external_body]
fn from_serde_value(v: serde_cbor::Value) -> CborValue {
    match v {
        serde_cbor::Value::Null => CborValue::Null,
        serde_cbor::Value::Bool(b) => CborValue::Bool(b),
        serde_cbor::Value::Integer(i) => CborValue::Integer(i),
        serde_cbor::Value::Bytes(b) => CborValue::Bytes(b),
        serde_cbor::Value::Text(t) => CborValue::Text(t),
        serde_cbor::Value::Array(a) => CborValue::Array(a.into_iter().map(from_serde_value).collect()),
        serde_cbor::Value::Map(m) => CborValue::Entries(
            m.into_iter().map(|(k, x)| (from_serde_value(k), from_serde_value(x))).collect(),
        ),
        serde_cbor::Value::Tag(t, b) => CborValue::Tag(t, Box::new(from_serde_value(*b))),
        _ => CborValue::Other,
    }
}

} // verus!
