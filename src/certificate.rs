//! Certificates and their decoding from CBOR data items.
use vstd::prelude::*;
use vstd::utf8::encode_utf8;
use crate::bytes::bytes_equal;
use crate::cbor::{cbor_decoded, decode_cbor, CborValue};
use crate::hash_tree::HashTree;
use crate::principal::{range_views, Principal};

verus! {

broadcast use vstd::std_specs::vec::group_vec_axioms;

/// A subnet's authorization, vouched for by a certificate of its own.
pub struct Delegation {
    pub subnet_id: Principal,
    /// The CBOR encoding of the vouching certificate.
    pub certificate: Vec<u8>,
}

/// A signed snapshot of the platform's state tree.
pub struct Certificate {
    pub tree: HashTree,
    pub signature: Vec<u8>,
    pub delegation: Option<Delegation>,
}

/// The hash tree that a CBOR item encodes: `[0]` is empty, `[1, l, r]` a
/// fork, `[2, label, t]` a labeled node, `[3, value]` a leaf and
/// `[4, digest]` a pruned subtree with a 32-byte digest.
pub open spec fn tree_from_cbor(v: CborValue) -> Option<HashTree>
    decreases v,
{
    match v {
        CborValue::Array(items) => {
            let s = items@;
            if s.len() == 1 && s[0] == CborValue::Integer(0) {
                Some(HashTree::Empty)
            } else if s.len() == 3 && s[0] == CborValue::Integer(1) {
                match (tree_from_cbor(s[1]), tree_from_cbor(s[2])) {
                    (Some(l), Some(r)) => Some(HashTree::Fork(Box::new(l), Box::new(r))),
                    _ => None,
                }
            } else if s.len() == 3 && s[0] == CborValue::Integer(2) && s[1] is Bytes {
                match tree_from_cbor(s[2]) {
                    Some(t) => Some(HashTree::Labeled(s[1]->Bytes_0, Box::new(t))),
                    None => None,
                }
            } else if s.len() == 2 && s[0] == CborValue::Integer(3) && s[1] is Bytes {
                Some(HashTree::Leaf(s[1]->Bytes_0))
            } else if s.len() == 2 && s[0] == CborValue::Integer(4) && s[1] is Bytes
                && (s[1]->Bytes_0)@.len() == 32 {
                Some(HashTree::Pruned(s[1]->Bytes_0))
            } else {
                None
            }
        },
        _ => None,
    }
}

fn int_value(v: &CborValue) -> (r: Option<i128>)
    ensures
        r matches Some(n) ==> *v == CborValue::Integer(n),
        r is None ==> !(*v is Integer),
{
    match v {
        CborValue::Integer(n) => Some(*n),
        _ => None,
    }
}

/// Decodes a hash tree from its CBOR form.
pub fn tree_from_cbor_value(v: CborValue) -> (r: Option<HashTree>)
    ensures
        r == tree_from_cbor(v),
    decreases v,
{
    match v {
        CborValue::Array(items) => {
            let ghost s = items@;
            let mut items = items;
            let n = items.len();
            if n == 0 || n > 3 {
                return None;
            }
            let kind = match int_value(&items[0]) {
                Some(k) => k,
                None => {
                    return None;
                },
            };
            if n == 1 {
                return if kind == 0 {
                    Some(HashTree::Empty)
                } else {
                    None
                };
            }
            let last = match items.pop() {
                Some(x) => x,
                None => {
                    return None;
                },
            };
            assert(last == s[n - 1]);
            if n == 3 {
                let mid = match items.pop() {
                    Some(x) => x,
                    None => {
                        return None;
                    },
                };
                assert(mid == s[1]);
                assert(decreases_to!(v => mid));
                assert(decreases_to!(v => last));
                if kind == 1 {
                    let l = tree_from_cbor_value(mid);
                    let r = tree_from_cbor_value(last);
                    match (l, r) {
                        (Some(l), Some(r)) => Some(HashTree::Fork(Box::new(l), Box::new(r))),
                        _ => None,
                    }
                } else if kind == 2 {
                    match mid {
                        CborValue::Bytes(label) => match tree_from_cbor_value(last) {
                            Some(t) => Some(HashTree::Labeled(label, Box::new(t))),
                            None => None,
                        },
                        _ => None,
                    }
                } else {
                    None
                }
            } else {
                match last {
                    CborValue::Bytes(b) => {
                        if kind == 3 {
                            Some(HashTree::Leaf(b))
                        } else if kind == 4 && b.len() == 32 {
                            Some(HashTree::Pruned(b))
                        } else {
                            None
                        }
                    },
                    _ => None,
                }
            }
        },
        _ => None,
    }
}


/// `k` is the text key whose UTF-8 bytes are `name`.
pub open spec fn key_is(k: CborValue, name: Seq<u8>) -> bool {
    match k {
        CborValue::Text(t) => encode_utf8(t@) == name,
        _ => false,
    }
}

/// The value of the first entry whose key is `name`.
pub open spec fn map_get(entries: Seq<(CborValue, CborValue)>, name: Seq<u8>) -> Option<CborValue>
    decreases entries.len(),
{
    if entries.len() == 0 {
        None
    } else if key_is(entries[0].0, name) {
        Some(entries[0].1)
    } else {
        map_get(entries.drop_first(), name)
    }
}

fn key_matches(k: &CborValue, name: &[u8]) -> (r: bool)
    ensures
        r == key_is(*k, name@),
{
    match k {
        CborValue::Text(t) => bytes_equal(t.as_str().as_bytes(), name),
        _ => false,
    }
}

/// Takes from map entries the values of the given distinct keys.
pub fn take_values(entries: Vec<(CborValue, CborValue)>, names: &Vec<Vec<u8>>) -> (r: Vec<Option<CborValue>>)
    requires
        forall|i: int, j: int| 0 <= i < j < names@.len() ==> names@[i]@ != names@[j]@,
    ensures
        r@.len() == names@.len(),
        forall|j: int| 0 <= j < names@.len() ==> #[trigger] r@[j] == map_get(entries@, names@[j]@),
{
    let ghost orig = entries@;
    let mut entries = entries;
    let mut r: Vec<Option<CborValue>> = Vec::new();
    let mut j: usize = 0;
    while j < names.len()
        invariant
            j <= names@.len(),
            r@.len() == j,
            forall|k: int| 0 <= k < j ==> #[trigger] r@[k] is None,
        decreases names.len() - j,
    {
        r.push(None);
        j = j + 1;
    }
    assert(orig.subrange(orig.len() as int, orig.len() as int).len() == 0);
    while entries.len() > 0
        invariant
            entries@ == orig.subrange(0, entries@.len() as int),
            entries@.len() <= orig.len(),
            r@.len() == names@.len(),
            forall|i: int, j: int| 0 <= i < j < names@.len() ==> names@[i]@ != names@[j]@,
            forall|k: int| 0 <= k < names@.len() ==> #[trigger] r@[k] == map_get(
                orig.subrange(entries@.len() as int, orig.len() as int),
                names@[k]@,
            ),
        decreases entries@.len(),
    {
        let ghost m = entries@.len() as int;
        let ghost tail = orig.subrange(m, orig.len() as int);
        let ghost r0 = r@;
        let e = match entries.pop() {
            Some(e) => e,
            None => {
                return r;
            },
        };
        assert(e == orig[m - 1]);
        let ghost ntail = orig.subrange(m - 1, orig.len() as int);
        assert(ntail.drop_first() =~= tail);
        assert(entries@ =~= orig.subrange(0, m - 1));
        let (key, value) = e;
        let mut k: usize = 0;
        let mut idx: usize = names.len();
        while k < names.len() && idx == names.len()
            invariant
                k <= names@.len(),
                idx == names@.len() || (idx < k && key_is(key, names@[idx as int]@)),
                idx == names@.len() ==> forall|i: int| 0 <= i < k ==> !key_is(key, #[trigger] names@[i]@),
            decreases names.len() - k,
        {
            if key_matches(&key, names[k].as_slice()) {
                idx = k;
            }
            k = k + 1;
        }
        let found = idx < names.len();
        if found {
            r.set(idx, Some(value));
        }
        proof {
            assert forall|i: int| 0 <= i < names@.len() implies #[trigger] r@[i] == map_get(ntail, names@[i]@) by {
                assert(ntail[0] == (key, value));
                if found && i == idx {
                } else if found {
                    assert(names@[i]@ != names@[idx as int]@);
                    if key_is(key, names@[i]@) {
                        assert(names@[i]@ == names@[idx as int]@);
                    }
                } else {
                }
            }
        }
    }
    assert(orig.subrange(0, orig.len() as int) =~= orig);
    r
}

/// The bytes of "tree".
pub open spec fn tree_key() -> Seq<u8> {
    seq![116u8, 114, 101, 101]
}

fn tree_key_vec() -> (r: Vec<u8>)
    ensures
        r@ == tree_key(),
{
    let r = vec![116u8, 114, 101, 101];
    assert(r@ =~= tree_key());
    r
}

/// The bytes of "signature".
pub open spec fn signature_key() -> Seq<u8> {
    seq![115u8, 105, 103, 110, 97, 116, 117, 114, 101]
}

fn signature_key_vec() -> (r: Vec<u8>)
    ensures
        r@ == signature_key(),
{
    let r = vec![115u8, 105, 103, 110, 97, 116, 117, 114, 101];
    assert(r@ =~= signature_key());
    r
}

/// The bytes of "delegation".
pub open spec fn delegation_key() -> Seq<u8> {
    seq![100u8, 101, 108, 101, 103, 97, 116, 105, 111, 110]
}

fn delegation_key_vec() -> (r: Vec<u8>)
    ensures
        r@ == delegation_key(),
{
    let r = vec![100u8, 101, 108, 101, 103, 97, 116, 105, 111, 110];
    assert(r@ =~= delegation_key());
    r
}

/// The bytes of "subnet_id".
pub open spec fn subnet_id_key() -> Seq<u8> {
    seq![115u8, 117, 98, 110, 101, 116, 95, 105, 100]
}

fn subnet_id_key_vec() -> (r: Vec<u8>)
    ensures
        r@ == subnet_id_key(),
{
    let r = vec![115u8, 117, 98, 110, 101, 116, 95, 105, 100];
    assert(r@ =~= subnet_id_key());
    r
}

/// The bytes of "certificate".
pub open spec fn certificate_key() -> Seq<u8> {
    seq![99u8, 101, 114, 116, 105, 102, 105, 99, 97, 116, 101]
}

fn certificate_key_vec() -> (r: Vec<u8>)
    ensures
        r@ == certificate_key(),
{
    let r = vec![99u8, 101, 114, 116, 105, 102, 105, 99, 97, 116, 101];
    assert(r@ =~= certificate_key());
    r
}

/// The bytes of "subnet".
pub open spec fn subnet_label() -> Seq<u8> {
    seq![115u8, 117, 98, 110, 101, 116]
}

pub(crate) fn subnet_label_vec() -> (r: Vec<u8>)
    ensures
        r@ == subnet_label(),
{
    let r = vec![115u8, 117, 98, 110, 101, 116];
    assert(r@ =~= subnet_label());
    r
}

/// The bytes of "canister_ranges".
pub open spec fn canister_ranges_label() -> Seq<u8> {
    seq![99u8, 97, 110, 105, 115, 116, 101, 114, 95, 114, 97, 110, 103, 101, 115]
}

pub(crate) fn canister_ranges_label_vec() -> (r: Vec<u8>)
    ensures
        r@ == canister_ranges_label(),
{
    let r = vec![99u8, 97, 110, 105, 115, 116, 101, 114, 95, 114, 97, 110, 103, 101, 115];
    assert(r@ =~= canister_ranges_label());
    r
}

/// The bytes of "public_key".
pub open spec fn public_key_label() -> Seq<u8> {
    seq![112u8, 117, 98, 108, 105, 99, 95, 107, 101, 121]
}

pub(crate) fn public_key_label_vec() -> (r: Vec<u8>)
    ensures
        r@ == public_key_label(),
{
    let r = vec![112u8, 117, 98, 108, 105, 99, 95, 107, 101, 121];
    assert(r@ =~= public_key_label());
    r
}

/// A data item with one tag taken off.
pub open spec fn untagged(v: CborValue) -> CborValue {
    match v {
        CborValue::Tag(_, b) => *b,
        _ => v,
    }
}

/// The delegation that a CBOR map encodes: byte strings under "subnet_id"
/// and "certificate".
pub open spec fn delegation_from_cbor(v: CborValue) -> Option<Delegation> {
    match v {
        CborValue::Entries(es) => match (map_get(es@, subnet_id_key()), map_get(es@, certificate_key())) {
            (Some(CborValue::Bytes(sid)), Some(CborValue::Bytes(c))) => Some(
                Delegation { subnet_id: Principal { bytes: sid }, certificate: c },
            ),
            _ => None,
        },
        _ => None,
    }
}

/// The certificate that a CBOR map encodes: a tree under "tree", a byte
/// string under "signature" and, if present, a delegation under "delegation".
pub open spec fn certificate_from_cbor(v: CborValue) -> Option<Certificate> {
    match untagged(v) {
        CborValue::Entries(es) => {
            let t = map_get(es@, tree_key());
            let s = map_get(es@, signature_key());
            let d = map_get(es@, delegation_key());
            match (t, s) {
                (Some(tv), Some(CborValue::Bytes(sig))) => match tree_from_cbor(tv) {
                    Some(tree) => match d {
                        None => Some(Certificate { tree, signature: sig, delegation: None }),
                        Some(dv) => match delegation_from_cbor(dv) {
                            Some(dl) => Some(Certificate { tree, signature: sig, delegation: Some(dl) }),
                            None => None,
                        },
                    },
                    None => None,
                },
                _ => None,
            }
        },
        _ => None,
    }
}

/// Decodes a delegation from its CBOR form.
pub fn delegation_from_cbor_value(v: CborValue) -> (r: Option<Delegation>)
    ensures
        r == delegation_from_cbor(v),
{
    match v {
        CborValue::Entries(es) => {
            let ghost e = es@;
            let names = vec![subnet_id_key_vec(), certificate_key_vec()];
            assert(names@[0]@.len() != names@[1]@.len());
            let mut vals = take_values(es, &names);
            assert(vals@[0] == map_get(e, subnet_id_key()));
            assert(vals@[1] == map_get(e, certificate_key()));
            let c = vals.pop();
            let sid = vals.pop();
            match (sid, c) {
                (Some(Some(CborValue::Bytes(sid))), Some(Some(CborValue::Bytes(c)))) => Some(
                    Delegation { subnet_id: Principal { bytes: sid }, certificate: c },
                ),
                _ => None,
            }
        },
        _ => None,
    }
}

/// Decodes a certificate from its CBOR form.
pub fn certificate_from_cbor_value(v: CborValue) -> (r: Option<Certificate>)
    ensures
        r == certificate_from_cbor(v),
{
    let v = match v {
        CborValue::Tag(_, b) => *b,
        other => other,
    };
    match v {
        CborValue::Entries(es) => {
            let ghost e = es@;
            let names = vec![tree_key_vec(), signature_key_vec(), delegation_key_vec()];
            assert(names@[0]@.len() != names@[1]@.len());
            assert(names@[0]@.len() != names@[2]@.len());
            assert(names@[1]@.len() != names@[2]@.len());
            let mut vals = take_values(es, &names);
            assert(vals@[0] == map_get(e, tree_key()));
            assert(vals@[1] == map_get(e, signature_key()));
            assert(vals@[2] == map_get(e, delegation_key()));
            let d = vals.pop();
            let s = vals.pop();
            let t = vals.pop();
            match (t, s) {
                (Some(Some(tv)), Some(Some(CborValue::Bytes(sig)))) => match tree_from_cbor_value(tv) {
                    Some(tree) => match d {
                        Some(None) => Some(Certificate { tree, signature: sig, delegation: None }),
                        Some(Some(dv)) => match delegation_from_cbor_value(dv) {
                            Some(dl) => Some(Certificate { tree, signature: sig, delegation: Some(dl) }),
                            None => None,
                        },
                        None => None,
                    },
                    None => None,
                },
                _ => None,
            }
        },
        _ => None,
    }
}

/// The certificate that CBOR bytes encode, if they encode one.
pub open spec fn certificate_from_bytes(data: Seq<u8>) -> Option<Certificate> {
    match cbor_decoded(data) {
        Some(v) => certificate_from_cbor(v),
        None => None,
    }
}

/// Decodes a certificate from its CBOR encoding.
pub fn decode_certificate(data: &[u8]) -> (r: Option<Certificate>)
    ensures
        r == certificate_from_bytes(data@),
{
    match decode_cbor(data) {
        Some(v) => certificate_from_cbor_value(v),
        None => None,
    }
}

/// Decodes a list of principal ranges from its CBOR encoding.
pub fn decode_ranges(data: &[u8]) -> (r: Option<Vec<(Principal, Principal)>>)
    ensures
        r is Some == (cbor_decoded(data@) matches Some(v) && ranges_from_cbor(v) is Some),
        r matches Some(rs) ==> cbor_decoded(data@) matches Some(v) && range_views(rs@) == ranges_from_cbor(v)->Some_0,
{
    match decode_cbor(data) {
        Some(v) => ranges_from_cbor_value(&v),
        None => None,
    }
}

/// The `(low, high)` pair that a CBOR array of two byte strings encodes.
pub open spec fn range_from_cbor(v: CborValue) -> Option<(Seq<u8>, Seq<u8>)> {
    match v {
        CborValue::Array(p) => if p@.len() == 2 && p@[0] is Bytes && p@[1] is Bytes {
            Some(((p@[0]->Bytes_0)@, (p@[1]->Bytes_0)@))
        } else {
            None
        },
        _ => None,
    }
}

/// The list of ranges that a CBOR array of pairs encodes.
pub open spec fn ranges_from_cbor(v: CborValue) -> Option<Seq<(Seq<u8>, Seq<u8>)>> {
    match v {
        CborValue::Array(items) => if forall|i: int|
            0 <= i < items@.len() ==> (#[trigger] range_from_cbor(items@[i])) is Some {
            Some(items@.map_values(|x: CborValue| range_from_cbor(x)->Some_0))
        } else {
            None
        },
        _ => None,
    }
}

/// Decodes a list of principal ranges from its CBOR form.
pub fn ranges_from_cbor_value(v: &CborValue) -> (r: Option<Vec<(Principal, Principal)>>)
    ensures
        r is Some == ranges_from_cbor(*v) is Some,
        r matches Some(rs) ==> range_views(rs@) == ranges_from_cbor(*v)->Some_0,
{
    match v {
        CborValue::Array(items) => {
            let mut out: Vec<(Principal, Principal)> = Vec::new();
            let mut i: usize = 0;
            while i < items.len()
                invariant
                    i <= items@.len(),
                    *v == CborValue::Array(*items),
                    forall|j: int| 0 <= j < i ==> (#[trigger] range_from_cbor(items@[j])) is Some,
                    range_views(out@) =~= items@.take(i as int).map_values(
                        |x: CborValue| range_from_cbor(x)->Some_0,
                    ),
                decreases items.len() - i,
            {
                let pair = match &items[i] {
                    CborValue::Array(p) => {
                        if p.len() == 2 {
                            match (&p[0], &p[1]) {
                                (CborValue::Bytes(a), CborValue::Bytes(b)) => Some(
                                    (Principal::from_slice(a.as_slice()), Principal::from_slice(b.as_slice())),
                                ),
                                _ => None,
                            }
                        } else {
                            None
                        }
                    },
                    _ => None,
                };
                match pair {
                    Some(pr) => {
                        let ghost prev = out@;
                        out.push(pr);
                        assert(range_views(out@) =~= range_views(prev).push((pr.0@, pr.1@)));
                        assert(items@.take(i + 1) =~= items@.take(i as int).push(items@[i as int]));
                    },
                    None => {
                        assert(range_from_cbor(items@[i as int]) is None);
                        assert(!(forall|j: int|
                            0 <= j < items@.len() ==> (#[trigger] range_from_cbor(items@[j])) is Some));
                        return None;
                    },
                }
                i = i + 1;
            }
            assert(items@.take(items@.len() as int) =~= items@);
            Some(out)
        },
        _ => None,
    }
}

} // verus!
