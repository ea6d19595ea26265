//! Request identifiers: a representation-independent hash of a request's fields.
use vstd::prelude::*;
use vstd::relations::sorted_by;
use vstd::seq_lib::{group_to_multiset_ensures, lemma_sorted_unique};
use crate::bytes::{
    append_bytes, compare_bytes, lemma_lex_cmp_antisym, lemma_lex_le_total_ordering,
    lemma_lex_le_trans, lex_le, lex_order, sha256, sha256_of,
};

verus! {

broadcast use vstd::std_specs::vec::group_vec_axioms;

/// The value of one request field: a byte string (text as its UTF-8 bytes),
/// a natural number or an array of values.
pub enum RequestValue {
    Bytes(Vec<u8>),
    Nat(u64),
    Array(Vec<RequestValue>),
}

/// One field of a request: its name, as UTF-8 bytes, and its value.
pub struct RequestField {
    pub name: Vec<u8>,
    pub value: RequestValue,
}

/// The 32-byte identifier of a request.
#[derive(Debug, PartialEq, Eq)]
pub struct RequestId {
    bytes: Vec<u8>,
}

impl RequestId {
    /// An identifier is a SHA-256 digest: 32 bytes.
    #[verifier::type_invariant]
    spec fn well_formed(&self) -> bool {
        self.bytes@.len() == 32
    }
}

impl View for RequestId {
    type V = Seq<u8>;

    closed spec fn view(&self) -> Seq<u8> {
        self.bytes@
    }
}

impl RequestId {
    /// The identifier's bytes.
    pub fn as_slice(&self) -> (r: &[u8])
        ensures
            r@ == self@,
            r@.len() == 32,
    {
        proof {
            use_type_invariant(self);
        }
        self.bytes.as_slice()
    }
}

/// Unsigned LEB128: seven bits per byte, least significant group first, the
/// high bit set on every byte but the last.
pub open spec fn leb128(n: nat) -> Seq<u8>
    decreases n,
{
    if n < 128 {
        seq![n as u8]
    } else {
        seq![(n % 128 + 128) as u8] + leb128(n / 128)
    }
}

/// The bytes that are hashed for a value: a byte string as it is, a number
/// in LEB128, an array as the hashes of its items one after the other.
pub open spec fn value_encoding(v: RequestValue) -> Seq<u8>
    decreases v,
{
    match v {
        RequestValue::Bytes(b) => b@,
        RequestValue::Nat(n) => leb128(n as nat),
        RequestValue::Array(items) => hashed_items(items@),
    }
}

/// The hashes of the values' encodings, one after the other.
pub open spec fn hashed_items(items: Seq<RequestValue>) -> Seq<u8>
    decreases items,
{
    if items.len() == 0 {
        Seq::empty()
    } else {
        hashed_items(items.drop_last()) + sha256_of(value_encoding(items.last()))
    }
}

/// The hash of a field's name followed by the hash of its value's encoding.
pub open spec fn pair_of(name: Seq<u8>, value: Seq<u8>) -> Seq<u8> {
    sha256_of(name) + sha256_of(value)
}

pub open spec fn field_pair(f: RequestField) -> Seq<u8> {
    pair_of(f.name@, value_encoding(f.value))
}

pub open spec fn field_pairs(fields: Seq<RequestField>) -> Seq<Seq<u8>> {
    fields.map_values(|f: RequestField| field_pair(f))
}

/// The byte strings of `s`, one after the other.
pub open spec fn concat_all(s: Seq<Seq<u8>>) -> Seq<u8>
    decreases s.len(),
{
    if s.len() == 0 {
        Seq::empty()
    } else {
        concat_all(s.drop_last()) + s.last()
    }
}

/// What is hashed into an identifier: the field pairs in ascending byte order.
pub open spec fn preimage_of_pairs(pairs: Seq<Seq<u8>>) -> Seq<u8> {
    concat_all(pairs.sort_by(lex_order()))
}

pub open spec fn id_of_pairs(pairs: Seq<Seq<u8>>) -> Seq<u8> {
    sha256_of(preimage_of_pairs(pairs))
}

pub open spec fn request_id_preimage(fields: Seq<RequestField>) -> Seq<u8> {
    preimage_of_pairs(field_pairs(fields))
}

/// The identifier of a request with the given fields.
pub open spec fn request_id_of(fields: Seq<RequestField>) -> Seq<u8> {
    sha256_of(request_id_preimage(fields))
}

pub open spec fn views(s: Seq<Vec<u8>>) -> Seq<Seq<u8>> {
    s.map_values(|v: Vec<u8>| v@)
}

/// Mapping a function over two sequences with the same elements gives two
/// sequences with the same elements.
pub proof fn lemma_map_same_multiset<A, B>(s: Seq<A>, t: Seq<A>, f: spec_fn(A) -> B)
    requires
        s.to_multiset() == t.to_multiset(),
    ensures
        s.map_values(f).to_multiset() == t.map_values(f).to_multiset(),
    decreases s.len(),
{
    broadcast use group_to_multiset_ensures;
    broadcast use vstd::multiset::group_multiset_axioms;

    if s.len() == 0 {
        assert(s.to_multiset().len() == 0);
        assert(t.to_multiset().len() == 0);
        assert(t.len() == 0);
        assert(s.map_values(f) =~= t.map_values(f));
    } else {
        let a = s[0];
        assert(s.to_multiset().count(a) > 0);
        assert(t.contains(a));
        let j = choose|j: int| 0 <= j < t.len() && t[j] == a;
        let s1 = s.drop_first();
        let t1 = t.remove(j);
        assert(s =~= s1.insert(0, a));
        assert(t =~= t1.insert(j, a));
        assert(s1.to_multiset() =~= t1.to_multiset());
        lemma_map_same_multiset(s1, t1, f);
        assert(s.map_values(f) =~= s1.map_values(f).insert(0, f(a)));
        assert(t.map_values(f) =~= t1.map_values(f).insert(j, f(a)));
    }
}

/// The identifier does not depend on the order of the fields: two requests
/// with the same fields, in any order, have the same identifier.
pub proof fn lemma_request_id_ignores_field_order(f1: Seq<RequestField>, f2: Seq<RequestField>)
    requires
        f1.to_multiset() == f2.to_multiset(),
    ensures
        request_id_preimage(f1) == request_id_preimage(f2),
        request_id_of(f1) == request_id_of(f2),
{
    lemma_map_same_multiset(f1, f2, |f: RequestField| field_pair(f));
    lemma_lex_le_total_ordering();
    let left = field_pairs(f1);
    let right = field_pairs(f2);
    left.lemma_sort_by_ensures(lex_order());
    right.lemma_sort_by_ensures(lex_order());
    lemma_sorted_unique(left.sort_by(lex_order()), right.sort_by(lex_order()), lex_order());
}

/// Encodes `n` in unsigned LEB128.
pub fn leb128_encode(n: u64) -> (r: Vec<u8>)
    ensures
        r@ == leb128(n as nat),
{
    let mut out: Vec<u8> = Vec::new();
    let mut m: u64 = n;
    assert(out@ + leb128(m as nat) =~= leb128(n as nat));
    while m >= 128
        invariant
            out@ + leb128(m as nat) == leb128(n as nat),
        decreases m,
    {
        let b: u8 = (m % 128 + 128) as u8;
        assert(leb128(m as nat) == seq![b] + leb128((m / 128) as nat));
        out.push(b);
        m = m / 128;
        assert(out@ + leb128(m as nat) =~= leb128(n as nat));
    }
    out.push(m as u8);
    assert(out@ =~= leb128(n as nat));
    out
}

fn value_encoding_bytes(v: &RequestValue) -> (r: Vec<u8>)
    ensures
        r@ == value_encoding(*v),
    decreases v,
{
    match v {
        RequestValue::Bytes(b) => b.clone(),
        RequestValue::Nat(n) => leb128_encode(*n),
        RequestValue::Array(items) => {
            let mut buf: Vec<u8> = Vec::new();
            let mut i: usize = 0;
            assert(items@.take(0) =~= Seq::<RequestValue>::empty());
            while i < items.len()
                invariant
                    i <= items@.len(),
                    *v == RequestValue::Array(*items),
                    buf@ == hashed_items(items@.take(i as int)),
                decreases items.len() - i,
            {
                proof {
                    vstd::std_specs::vec::axiom_vec_index_decreases(*items, i as int);
                    assert(decreases_to!(*v => (*v)->Array_0));
                    assert(decreases_to!(*v => items@[i as int]));
                }
                let enc = value_encoding_bytes(&items[i]);
                let h = sha256(enc.as_slice());
                append_bytes(&mut buf, h.as_slice());
                assert(items@.take(i + 1).drop_last() =~= items@.take(i as int));
                i = i + 1;
            }
            assert(items@.take(items@.len() as int) =~= items@);
            buf
        },
    }
}

fn field_pair_bytes(f: &RequestField) -> (r: Vec<u8>)
    ensures
        r@ == field_pair(*f),
{
    let mut out = sha256(f.name.as_slice());
    let enc = value_encoding_bytes(&f.value);
    let vh = sha256(enc.as_slice());
    append_bytes(&mut out, vh.as_slice());
    out
}

/// Sorts byte strings into ascending lexicographic order.
pub fn sort_byte_strings(v: &Vec<Vec<u8>>) -> (r: Vec<Vec<u8>>)
    ensures
        views(r@) == views(v@).sort_by(lex_order()),
{
    broadcast use group_to_multiset_ensures;

    let mut out: Vec<Vec<u8>> = Vec::new();
    let mut i: usize = 0;
    assert(views(out@) =~= views(v@).take(0));
    while i < v.len()
        invariant
            i <= v@.len(),
            sorted_by(views(out@), lex_order()),
            views(out@).to_multiset() == views(v@).take(i as int).to_multiset(),
        decreases v.len() - i,
    {
        let x = v[i].clone();
        let mut k: usize = 0;
        while k < out.len() && compare_bytes(out[k].as_slice(), x.as_slice()) <= 0
            invariant
                k <= out@.len(),
                forall|j: int| 0 <= j < k ==> lex_le(#[trigger] out@[j]@, x@),
            decreases out.len() - k,
        {
            k = k + 1;
        }
        let ghost before = views(out@);
        proof {
            if k < out@.len() {
                lemma_lex_cmp_antisym(out@[k as int]@, x@);
            }
        }
        out.insert(k, x);
        proof {
            assert(views(out@) =~= before.insert(k as int, x@));
            let s = views(out@);
            assert forall|a: int, b: int| 0 <= a < b < s.len() implies #[trigger] lex_order()(s[a], s[b]) by {
                if a < k && b == k {
                } else if a == k && b > k {
                    if b > k + 1 {
                        assert(lex_order()(before[k as int], before[b - 1]));
                        lemma_lex_le_trans(x@, before[k as int], before[b - 1]);
                    }
                } else if a < k && b > k {
                    assert(lex_order()(before[a], before[b - 1]));
                } else if b < k {
                    assert(lex_order()(before[a], before[b]));
                } else {
                    assert(lex_order()(before[a - 1], before[b - 1]));
                }
            }
            assert(views(v@).take(i + 1) =~= views(v@).take(i as int).push(v@[i as int]@));
            vstd::seq_lib::to_multiset_build(views(v@).take(i as int), v@[i as int]@);
            vstd::seq_lib::to_multiset_insert(before, k as int, x@);
        }
        i = i + 1;
    }
    proof {
        assert(views(v@).take(v@.len() as int) =~= views(v@));
        lemma_lex_le_total_ordering();
        views(v@).lemma_sort_by_ensures(lex_order());
        lemma_sorted_unique(views(out@), views(v@).sort_by(lex_order()), lex_order());
    }
    out
}

/// The identifier of a request with the given fields: each field contributes
/// the hash of its name followed by the hash of its value; these pairs are
/// sorted, joined and hashed once more.
pub fn request_id_of_fields(fields: &Vec<RequestField>) -> (r: RequestId)
    ensures
        r@ == request_id_of(fields@),
{
    let mut pairs: Vec<Vec<u8>> = Vec::new();
    let mut i: usize = 0;
    while i < fields.len()
        invariant
            i <= fields@.len(),
            views(pairs@) =~= field_pairs(fields@).take(i as int),
        decreases fields.len() - i,
    {
        let p = field_pair_bytes(&fields[i]);
        let ghost prev = pairs@;
        pairs.push(p);
        assert(views(pairs@) =~= views(prev).push(p@));
        assert(field_pairs(fields@)[i as int] == field_pair(fields@[i as int]));
        assert(views(pairs@) =~= field_pairs(fields@).take(i + 1));
        i = i + 1;
    }
    assert(field_pairs(fields@).take(fields@.len() as int) =~= field_pairs(fields@));
    let sorted = sort_byte_strings(&pairs);
    let mut buf: Vec<u8> = Vec::new();
    let mut j: usize = 0;
    assert(views(sorted@).take(0) =~= Seq::<Seq<u8>>::empty());
    while j < sorted.len()
        invariant
            j <= sorted@.len(),
            buf@ == concat_all(views(sorted@).take(j as int)),
        decreases sorted.len() - j,
    {
        append_bytes(&mut buf, sorted[j].as_slice());
        assert(views(sorted@).take(j + 1).drop_last() =~= views(sorted@).take(j as int));
        j = j + 1;
    }
    assert(views(sorted@).take(sorted@.len() as int) =~= views(sorted@));
    RequestId { bytes: sha256(buf.as_slice()) }
}

} // verus!
