//! Request envelopes: their contents, identifiers, signing messages and expiry.
use vstd::prelude::*;
use vstd::utf8::encode_utf8;
use crate::bytes::{append_bytes, lemma_lex_le_total_ordering, lex_order};
use crate::error::AgentError;
use crate::hash_tree::Label;
pub use crate::identity::Signature;
use crate::principal::Principal;
use crate::request_id::{
    field_pairs, hashed_items, id_of_pairs, leb128, pair_of, request_id_of_fields, value_encoding,
    RequestField, RequestId, RequestValue,
};
use crate::bytes::sha256_of;
use crate::hash_tree::path_view;

verus! {

/// How far the local clock may run ahead of the platform's, in nanoseconds.
pub const PERMITTED_DRIFT_NANOS: u128 = 60_000_000_000;

/// The domain separator of request signatures: a length byte and "ic-request".
pub open spec fn request_domain_separator() -> Seq<u8> {
    seq![10u8, 105, 99, 45, 114, 101, 113, 117, 101, 115, 116]
}

fn request_domain_separator_vec() -> (r: Vec<u8>)
    ensures
        r@ == request_domain_separator(),
{
    let r = vec![10u8, 105, 99, 45, 114, 101, 113, 117, 101, 115, 116];
    assert(r@ =~= request_domain_separator());
    r
}

/// The bytes of "request_type".
pub open spec fn request_type_name() -> Seq<u8> {
    seq![114u8, 101, 113, 117, 101, 115, 116, 95, 116, 121, 112, 101]
}

fn request_type_name_vec() -> (r: Vec<u8>)
    ensures
        r@ == request_type_name(),
{
    let r = vec![114u8, 101, 113, 117, 101, 115, 116, 95, 116, 121, 112, 101];
    assert(r@ =~= request_type_name());
    r
}

/// The bytes of "call".
pub open spec fn call_value() -> Seq<u8> {
    seq![99u8, 97, 108, 108]
}

fn call_value_vec() -> (r: Vec<u8>)
    ensures
        r@ == call_value(),
{
    let r = vec![99u8, 97, 108, 108];
    assert(r@ =~= call_value());
    r
}

/// The bytes of "canister_id".
pub open spec fn canister_id_name() -> Seq<u8> {
    seq![99u8, 97, 110, 105, 115, 116, 101, 114, 95, 105, 100]
}

fn canister_id_name_vec() -> (r: Vec<u8>)
    ensures
        r@ == canister_id_name(),
{
    let r = vec![99u8, 97, 110, 105, 115, 116, 101, 114, 95, 105, 100];
    assert(r@ =~= canister_id_name());
    r
}

/// The bytes of "method_name".
pub open spec fn method_name_name() -> Seq<u8> {
    seq![109u8, 101, 116, 104, 111, 100, 95, 110, 97, 109, 101]
}

fn method_name_name_vec() -> (r: Vec<u8>)
    ensures
        r@ == method_name_name(),
{
    let r = vec![109u8, 101, 116, 104, 111, 100, 95, 110, 97, 109, 101];
    assert(r@ =~= method_name_name());
    r
}

/// The bytes of "arg".
pub open spec fn arg_name() -> Seq<u8> {
    seq![97u8, 114, 103]
}

fn arg_name_vec() -> (r: Vec<u8>)
    ensures
        r@ == arg_name(),
{
    let r = vec![97u8, 114, 103];
    assert(r@ =~= arg_name());
    r
}

/// The bytes of "nonce".
pub open spec fn nonce_name() -> Seq<u8> {
    seq![110u8, 111, 110, 99, 101]
}

fn nonce_name_vec() -> (r: Vec<u8>)
    ensures
        r@ == nonce_name(),
{
    let r = vec![110u8, 111, 110, 99, 101];
    assert(r@ =~= nonce_name());
    r
}

/// The bytes of "sender".
pub open spec fn sender_name() -> Seq<u8> {
    seq![115u8, 101, 110, 100, 101, 114]
}

fn sender_name_vec() -> (r: Vec<u8>)
    ensures
        r@ == sender_name(),
{
    let r = vec![115u8, 101, 110, 100, 101, 114];
    assert(r@ =~= sender_name());
    r
}

/// The bytes of "ingress_expiry".
pub open spec fn ingress_expiry_name() -> Seq<u8> {
    seq![105u8, 110, 103, 114, 101, 115, 115, 95, 101, 120, 112, 105, 114, 121]
}

fn ingress_expiry_name_vec() -> (r: Vec<u8>)
    ensures
        r@ == ingress_expiry_name(),
{
    let r = vec![105u8, 110, 103, 114, 101, 115, 115, 95, 101, 120, 112, 105, 114, 121];
    assert(r@ =~= ingress_expiry_name());
    r
}

/// The bytes of "read_state".
pub open spec fn read_state_value() -> Seq<u8> {
    seq![114u8, 101, 97, 100, 95, 115, 116, 97, 116, 101]
}

fn read_state_value_vec() -> (r: Vec<u8>)
    ensures
        r@ == read_state_value(),
{
    let r = vec![114u8, 101, 97, 100, 95, 115, 116, 97, 116, 101];
    assert(r@ =~= read_state_value());
    r
}

/// The bytes of "paths".
pub open spec fn paths_name() -> Seq<u8> {
    seq![112u8, 97, 116, 104, 115]
}

fn paths_name_vec() -> (r: Vec<u8>)
    ensures
        r@ == paths_name(),
{
    let r = vec![112u8, 97, 116, 104, 115];
    assert(r@ =~= paths_name());
    r
}

/// The content of a call request.
pub enum CallRequestContent {
    CallRequest {
        nonce: Option<Vec<u8>>,
        ingress_expiry: u64,
        sender: Principal,
        canister_id: Principal,
        method_name: String,
        arg: Vec<u8>,
    },
}

/// The content of a read-state request.
pub enum ReadStateContent {
    ReadStateRequest { ingress_expiry: u64, sender: Principal, paths: Vec<Vec<Label>> },
}

/// A call request with everything the transport needs to send it.
pub struct SignedUpdate {
    pub nonce: Option<Vec<u8>>,
    pub ingress_expiry: u64,
    pub sender: Principal,
    pub canister_id: Principal,
    pub method_name: String,
    pub arg: Vec<u8>,
    pub effective_canister_id: Principal,
    pub signed_update: Vec<u8>,
    pub request_id: RequestId,
}

/// The field pairs of a call request; an absent nonce contributes no pair.
pub open spec fn call_pairs(
    sender: Seq<u8>,
    canister_id: Seq<u8>,
    method_name: Seq<char>,
    arg: Seq<u8>,
    nonce: Option<Seq<u8>>,
    ingress_expiry: u64,
) -> Seq<Seq<u8>> {
    seq![
        pair_of(request_type_name(), call_value()),
        pair_of(canister_id_name(), canister_id),
        pair_of(method_name_name(), encode_utf8(method_name)),
        pair_of(arg_name(), arg),
    ] + match nonce {
        Some(n) => seq![pair_of(nonce_name(), n)],
        None => Seq::empty(),
    } + seq![pair_of(sender_name(), sender), pair_of(ingress_expiry_name(), leb128(ingress_expiry as nat))]
}

pub open spec fn opt_view(o: Option<Vec<u8>>) -> Option<Seq<u8>> {
    match o {
        Some(v) => Some(v@),
        None => None,
    }
}

/// The field pairs of a call request's content.
pub open spec fn content_pairs(c: CallRequestContent) -> Seq<Seq<u8>> {
    match c {
        CallRequestContent::CallRequest { nonce, ingress_expiry, sender, canister_id, method_name, arg } =>
            call_pairs(sender@, canister_id@, method_name@, arg@, opt_view(nonce), ingress_expiry),
    }
}

fn named_field(name: Vec<u8>, value: RequestValue) -> (r: RequestField)
    ensures
        r.name == name,
        r.value == value,
{
    RequestField { name, value }
}

/// Omitting the nonce is not the same as an empty nonce: the empty one
/// contributes a field pair of its own, so the sorted pairs that are hashed
/// into the identifier differ.
pub proof fn lemma_absent_nonce_is_not_empty_nonce(
    sender: Seq<u8>,
    canister_id: Seq<u8>,
    method_name: Seq<char>,
    arg: Seq<u8>,
    ingress_expiry: u64,
)
    ensures
        call_pairs(sender, canister_id, method_name, arg, None, ingress_expiry).len() + 1
            == call_pairs(sender, canister_id, method_name, arg, Some(Seq::empty()), ingress_expiry).len(),
        call_pairs(sender, canister_id, method_name, arg, None, ingress_expiry).sort_by(lex_order())
            != call_pairs(sender, canister_id, method_name, arg, Some(Seq::empty()), ingress_expiry).sort_by(lex_order()),
{
    broadcast use vstd::seq_lib::group_to_multiset_ensures;

    let a = call_pairs(sender, canister_id, method_name, arg, None, ingress_expiry);
    let b = call_pairs(sender, canister_id, method_name, arg, Some(Seq::empty()), ingress_expiry);
    lemma_lex_le_total_ordering();
    a.lemma_sort_by_ensures(lex_order());
    b.lemma_sort_by_ensures(lex_order());
    assert(a.sort_by(lex_order()).to_multiset().len() == a.len());
    assert(b.sort_by(lex_order()).to_multiset().len() == b.len());
}

/// The identifier of a call request.
pub fn to_request_id(request: &CallRequestContent) -> (r: RequestId)
    ensures
        r@ == id_of_pairs(content_pairs(*request)),
{
    match request {
        CallRequestContent::CallRequest { nonce, ingress_expiry, sender, canister_id, method_name, arg } => {
            let mut method: Vec<u8> = Vec::new();
            append_bytes(&mut method, method_name.as_str().as_bytes());
            assert(method@ =~= encode_utf8(method_name@));
            let mut fields: Vec<RequestField> = Vec::new();
            fields.push(named_field(request_type_name_vec(), RequestValue::Bytes(call_value_vec())));
            fields.push(named_field(canister_id_name_vec(), RequestValue::Bytes(canister_id.bytes.clone())));
            fields.push(named_field(method_name_name_vec(), RequestValue::Bytes(method)));
            fields.push(named_field(arg_name_vec(), RequestValue::Bytes(arg.clone())));
            match nonce {
                Some(n) => {
                    fields.push(named_field(nonce_name_vec(), RequestValue::Bytes(n.clone())));
                },
                None => {},
            }
            fields.push(named_field(sender_name_vec(), RequestValue::Bytes(sender.bytes.clone())));
            fields.push(named_field(ingress_expiry_name_vec(), RequestValue::Nat(*ingress_expiry)));
            assert(field_pairs(fields@) =~= content_pairs(*request));
            request_id_of_fields(&fields)
        },
    }
}

/// Builds the content of a call request, with the given nonce.
pub fn update_content(
    sender: Principal,
    canister_id: &Principal,
    method_name: &str,
    arg: &[u8],
    nonce: Vec<u8>,
    ingress_expiry: u64,
) -> (r: Result<CallRequestContent, AgentError>)
    ensures
        r matches Ok(CallRequestContent::CallRequest { nonce: n, ingress_expiry: e, sender: s, canister_id: c, method_name: m, arg: a })
            && n == Some(nonce) && e == ingress_expiry && s == sender && c@ == canister_id@ && m@ == method_name@ && a@ == arg@,
{
    let mut a: Vec<u8> = Vec::new();
    append_bytes(&mut a, arg);
    assert(a@ =~= arg@);
    Ok(
        CallRequestContent::CallRequest {
            canister_id: canister_id.copy(),
            method_name: method_name.to_string(),
            arg: a,
            nonce: Some(nonce),
            sender,
            ingress_expiry,
        },
    )
}

/// The blob that the sender signs for a request: the request domain
/// separator followed by the request identifier.
pub fn construct_message(request_id: &RequestId) -> (r: Vec<u8>)
    ensures
        r@ == request_domain_separator() + request_id@,
        r@.len() == 43,
{
    let mut buf = request_domain_separator_vec();
    append_bytes(&mut buf, request_id.as_slice());
    buf
}

/// Assembles a signed call request: its content, its identifier, the
/// effective canister and the already signed envelope.
pub fn sign(
    sender: Principal,
    canister_id: &Principal,
    effective_canister_id: Principal,
    method_name: &str,
    arg: &[u8],
    nonce: Vec<u8>,
    ingress_expiry_datetime: u64,
    signed_update: Vec<u8>,
) -> (r: Result<SignedUpdate, AgentError>)
    ensures
        r matches Ok(u) && u.nonce == Some(nonce) && u.ingress_expiry == ingress_expiry_datetime
            && u.sender == sender && u.canister_id@ == canister_id@ && u.method_name@ == method_name@
            && u.arg@ == arg@ && u.effective_canister_id == effective_canister_id
            && u.signed_update == signed_update
            && u.request_id@ == id_of_pairs(
                call_pairs(sender@, canister_id@, method_name@, arg@, Some(nonce@), ingress_expiry_datetime),
            ),
{
    let request = match update_content(sender, canister_id, method_name, arg, nonce, ingress_expiry_datetime) {
        Ok(c) => c,
        Err(e) => {
            return Err(e);
        },
    };
    let request_id = to_request_id(&request);
    match request {
        CallRequestContent::CallRequest { nonce, ingress_expiry, sender, canister_id, method_name, arg } => Ok(
            SignedUpdate {
                nonce,
                ingress_expiry,
                sender,
                canister_id,
                method_name,
                arg,
                effective_canister_id,
                signed_update,
                request_id,
            },
        ),
    }
}

/// The hashes of the labels of a path, one after the other.
pub open spec fn hashed_labels(path: Seq<Seq<u8>>) -> Seq<u8>
    decreases path.len(),
{
    if path.len() == 0 {
        Seq::empty()
    } else {
        hashed_labels(path.drop_last()) + sha256_of(path.last())
    }
}

/// The encoding of a list of paths: for each path, the hash of its
/// labels' hashes, one after the other.
pub open spec fn hashed_paths(paths: Seq<Seq<Seq<u8>>>) -> Seq<u8>
    decreases paths.len(),
{
    if paths.len() == 0 {
        Seq::empty()
    } else {
        hashed_paths(paths.drop_last()) + sha256_of(hashed_labels(paths.last()))
    }
}

pub open spec fn paths_view(paths: Seq<Vec<Label>>) -> Seq<Seq<Seq<u8>>> {
    paths.map_values(|p: Vec<Label>| path_view(p@))
}

/// The field pairs of a read-state request.
pub open spec fn read_state_pairs(sender: Seq<u8>, paths: Seq<Seq<Seq<u8>>>, ingress_expiry: u64) -> Seq<Seq<u8>> {
    seq![
        pair_of(request_type_name(), read_state_value()),
        pair_of(sender_name(), sender),
        pair_of(paths_name(), hashed_paths(paths)),
        pair_of(ingress_expiry_name(), leb128(ingress_expiry as nat)),
    ]
}

fn path_value(path: &Vec<Label>) -> (r: RequestValue)
    ensures
        value_encoding(r) == hashed_labels(path_view(path@)),
{
    let mut items: Vec<RequestValue> = Vec::new();
    let mut i: usize = 0;
    let ghost pv = path_view(path@);
    assert(pv.take(0) =~= Seq::<Seq<u8>>::empty());
    while i < path.len()
        invariant
            i <= path@.len(),
            pv == path_view(path@),
            hashed_items(items@) == hashed_labels(pv.take(i as int)),
        decreases path.len() - i,
    {
        let ghost prev = items@;
        let label = path[i].clone();
        items.push(RequestValue::Bytes(label));
        assert(items@.drop_last() =~= prev);
        assert(pv[i as int] == path@[i as int]@);
        assert(value_encoding(items@.last()) == pv[i as int]);
        assert(pv.take(i + 1).drop_last() =~= pv.take(i as int));
        i = i + 1;
    }
    assert(pv.take(path@.len() as int) =~= pv);
    RequestValue::Array(items)
}

fn paths_value(paths: &Vec<Vec<Label>>) -> (r: RequestValue)
    ensures
        value_encoding(r) == hashed_paths(paths_view(paths@)),
{
    let mut items: Vec<RequestValue> = Vec::new();
    let mut i: usize = 0;
    let ghost pv = paths_view(paths@);
    assert(pv.take(0) =~= Seq::<Seq<Seq<u8>>>::empty());
    while i < paths.len()
        invariant
            i <= paths@.len(),
            pv == paths_view(paths@),
            hashed_items(items@) == hashed_paths(pv.take(i as int)),
        decreases paths.len() - i,
    {
        let ghost prev = items@;
        items.push(path_value(&paths[i]));
        assert(items@.drop_last() =~= prev);
        assert(pv[i as int] == path_view(paths@[i as int]@));
        assert(pv.take(i + 1).drop_last() =~= pv.take(i as int));
        i = i + 1;
    }
    assert(pv.take(paths@.len() as int) =~= pv);
    RequestValue::Array(items)
}

/// The identifier of a read-state request.
pub fn read_state_request_id(request: &ReadStateContent) -> (r: RequestId)
    ensures
        r@ == match *request {
            ReadStateContent::ReadStateRequest { ingress_expiry, sender, paths } => id_of_pairs(
                read_state_pairs(sender@, paths_view(paths@), ingress_expiry),
            ),
        },
{
    match request {
        ReadStateContent::ReadStateRequest { ingress_expiry, sender, paths } => {
            let mut fields: Vec<RequestField> = Vec::new();
            fields.push(named_field(request_type_name_vec(), RequestValue::Bytes(read_state_value_vec())));
            fields.push(named_field(sender_name_vec(), RequestValue::Bytes(sender.bytes.clone())));
            fields.push(named_field(paths_name_vec(), paths_value(paths)));
            fields.push(named_field(ingress_expiry_name_vec(), RequestValue::Nat(*ingress_expiry)));
            assert(field_pairs(fields@) =~= read_state_pairs(sender@, paths_view(paths@), *ingress_expiry));
            request_id_of_fields(&fields)
        },
    }
}

/// Builds the content of a read-state request.
pub fn read_state_content(sender: Principal, paths: Vec<Vec<Label>>, ingress_expiry: u64) -> (r: Result<
    ReadStateContent,
    AgentError,
>)
    ensures
        r == Ok::<ReadStateContent, AgentError>(ReadStateContent::ReadStateRequest { sender, paths, ingress_expiry }),
{
    Ok(ReadStateContent::ReadStateRequest { sender, paths, ingress_expiry })
}

/// The expiry timestamp, in nanoseconds since the epoch, of a request valid
/// for `duration_nanos` from `now_nanos`, less the permitted drift. Every step
/// saturates: the sum at `u128::MAX`, the difference at zero and the result
/// at `u64::MAX`.
pub open spec fn expiry_spec(duration_nanos: u128, now_nanos: u128) -> u64 {
    let sum = if duration_nanos + now_nanos > u128::MAX {
        u128::MAX as int
    } else {
        duration_nanos + now_nanos
    };
    let less = if sum < PERMITTED_DRIFT_NANOS {
        0
    } else {
        sum - PERMITTED_DRIFT_NANOS
    };
    if less > u64::MAX {
        u64::MAX
    } else {
        less as u64
    }
}

/// The expiry timestamp of a request valid for `duration_nanos` from `now_nanos`.
pub fn expiry_date_at(duration_nanos: u128, now_nanos: u128) -> (r: u64)
    ensures
        r == expiry_spec(duration_nanos, now_nanos),
{
    let sum = duration_nanos.saturating_add(now_nanos);
    let less = sum.saturating_sub(PERMITTED_DRIFT_NANOS);
    if less > u64::MAX as u128 {
        u64::MAX
    } else {
        less as u64
    }
}

/// The whole nanoseconds of a duration.
pub uninterp spec fn duration_nanos(d: std::time::Duration) -> u128;

/// Relies on std::time::Duration::as_nanos: the whole nanoseconds of a
/// duration, which depend on the duration alone.
#[verifier::external_body]
fn duration_as_nanos(d: &std::time::Duration) -> (r: u128)
    ensures
        r == duration_nanos(*d),
{
    d.as_nanos()
}

#[verifier::external_type_specification]
#[verifier::external_body]
pub struct ExSystemTime(std::time::SystemTime);

/// Relies on std::time::SystemTime::now: a reading of the system clock.
#[verifier::external_body]
fn system_time_now() -> (r: std::time::SystemTime) {
    std::time::SystemTime::now()
}

/// Relies on std::time::SystemTime::duration_since, taken from UNIX_EPOCH:
/// the time since the epoch, none where the clock reads earlier.
#[verifier::external_body]
fn since_epoch(t: &std::time::SystemTime) -> (r: Option<std::time::Duration>) {
    t.duration_since(std::time::UNIX_EPOCH).ok()
}

/// The expiry timestamp of a request valid for `ingress_expiry_duration`
/// from now; `None` where the system clock reads a time before the epoch.
pub fn get_expiry_date(ingress_expiry_duration: std::time::Duration) -> (r: Option<u64>)
    ensures
        r matches Some(x) ==> exists|now: u128| x == expiry_spec(duration_nanos(ingress_expiry_duration), now),
{
    let d = duration_as_nanos(&ingress_expiry_duration);
    let t = system_time_now();
    match since_epoch(&t) {
        Some(elapsed) => {
            let now = duration_as_nanos(&elapsed);
            Some(expiry_date_at(d, now))
        },
        None => None,
    }
}

} // verus!
