//! The labeled hash tree: its digest and path lookup.
use vstd::prelude::*;
use crate::bytes::{append_bytes, compare_bytes, lex_cmp, sha256, sha256_of};

verus! {

/// A label: the name of an edge in the tree.
pub type Label = Vec<u8>;

/// A node of a sparse Merkle tree. Children are owned by their parent.
pub enum HashTree {
    Empty,
    Fork(Box<HashTree>, Box<HashTree>),
    Labeled(Label, Box<HashTree>),
    Leaf(Vec<u8>),
    /// A subtree left out by the sender, known by its digest alone.
    Pruned(Vec<u8>),
}

/// Length-prefixed domain tag of `Empty` nodes: "ic-hashtree-empty".
pub open spec fn empty_tag() -> Seq<u8> {
    seq![17u8, 105, 99, 45, 104, 97, 115, 104, 116, 114, 101, 101, 45, 101, 109, 112, 116, 121]
}

/// Length-prefixed domain tag of `Fork` nodes: "ic-hashtree-fork".
pub open spec fn fork_tag() -> Seq<u8> {
    seq![16u8, 105, 99, 45, 104, 97, 115, 104, 116, 114, 101, 101, 45, 102, 111, 114, 107]
}

/// Length-prefixed domain tag of `Labeled` nodes: "ic-hashtree-labeled".
pub open spec fn labeled_tag() -> Seq<u8> {
    seq![19u8, 105, 99, 45, 104, 97, 115, 104, 116, 114, 101, 101, 45, 108, 97, 98, 101, 108, 101, 100]
}

/// Length-prefixed domain tag of `Leaf` nodes: "ic-hashtree-leaf".
pub open spec fn leaf_tag() -> Seq<u8> {
    seq![16u8, 105, 99, 45, 104, 97, 115, 104, 116, 114, 101, 101, 45, 108, 101, 97, 102]
}

/// The root digest of a tree.
pub open spec fn digest_of(t: HashTree) -> Seq<u8>
    decreases t,
{
    match t {
        HashTree::Empty => sha256_of(empty_tag()),
        HashTree::Fork(l, r) => sha256_of(fork_tag() + digest_of(*l) + digest_of(*r)),
        HashTree::Labeled(l, s) => sha256_of(labeled_tag() + l@ + digest_of(*s)),
        HashTree::Leaf(v) => sha256_of(leaf_tag() + v@),
        HashTree::Pruned(d) => d@,
    }
}

/// The subtree reached from `t` by the steps of `pos` (`true` takes the
/// right child of a fork; the child of a labeled node is taken either way).
pub open spec fn subtree_at(t: HashTree, pos: Seq<bool>) -> Option<HashTree>
    decreases pos.len(),
{
    if pos.len() == 0 {
        Some(t)
    } else {
        match t {
            HashTree::Fork(l, r) => if pos[0] {
                subtree_at(*r, pos.drop_first())
            } else {
                subtree_at(*l, pos.drop_first())
            },
            HashTree::Labeled(_, s) => subtree_at(*s, pos.drop_first()),
            _ => None,
        }
    }
}

/// `t` with the subtree at `pos` replaced by `n` (unchanged where `pos` leads nowhere).
pub open spec fn replace_at(t: HashTree, pos: Seq<bool>, n: HashTree) -> HashTree
    decreases pos.len(),
{
    if pos.len() == 0 {
        n
    } else {
        match t {
            HashTree::Fork(l, r) => if pos[0] {
                HashTree::Fork(l, Box::new(replace_at(*r, pos.drop_first(), n)))
            } else {
                HashTree::Fork(Box::new(replace_at(*l, pos.drop_first(), n)), r)
            },
            HashTree::Labeled(lab, s) => HashTree::Labeled(lab, Box::new(replace_at(*s, pos.drop_first(), n))),
            _ => t,
        }
    }
}

/// Pruning keeps the digest: replacing any subtree by a `Pruned` node that
/// carries that subtree's digest leaves the root digest unchanged.
pub proof fn lemma_prune_keeps_digest(t: HashTree, pos: Seq<bool>, d: Vec<u8>)
    requires
        subtree_at(t, pos) is Some,
        d@ == digest_of(subtree_at(t, pos)->0),
    ensures
        digest_of(replace_at(t, pos, HashTree::Pruned(d))) == digest_of(t),
    decreases pos.len(),
{
    if pos.len() > 0 {
        match t {
            HashTree::Fork(l, r) => {
                if pos[0] {
                    lemma_prune_keeps_digest(*r, pos.drop_first(), d);
                } else {
                    lemma_prune_keeps_digest(*l, pos.drop_first(), d);
                }
            },
            HashTree::Labeled(_, s) => {
                lemma_prune_keeps_digest(*s, pos.drop_first(), d);
            },
            _ => {},
        }
    }
}

fn empty_domain_tag() -> (r: Vec<u8>)
    ensures
        r@ == empty_tag(),
{
    let r = vec![17u8, 105, 99, 45, 104, 97, 115, 104, 116, 114, 101, 101, 45, 101, 109, 112, 116, 121];
    assert(r@ =~= empty_tag());
    r
}

fn fork_domain_tag() -> (r: Vec<u8>)
    ensures
        r@ == fork_tag(),
{
    let r = vec![16u8, 105, 99, 45, 104, 97, 115, 104, 116, 114, 101, 101, 45, 102, 111, 114, 107];
    assert(r@ =~= fork_tag());
    r
}

fn labeled_domain_tag() -> (r: Vec<u8>)
    ensures
        r@ == labeled_tag(),
{
    let r = vec![19u8, 105, 99, 45, 104, 97, 115, 104, 116, 114, 101, 101, 45, 108, 97, 98, 101, 108, 101, 100];
    assert(r@ =~= labeled_tag());
    r
}

fn leaf_domain_tag() -> (r: Vec<u8>)
    ensures
        r@ == leaf_tag(),
{
    let r = vec![16u8, 105, 99, 45, 104, 97, 115, 104, 116, 114, 101, 101, 45, 108, 101, 97, 102];
    assert(r@ =~= leaf_tag());
    r
}

impl HashTree {
    /// The root digest of the tree.
    pub fn digest(&self) -> (r: Vec<u8>)
        ensures
            r@ == digest_of(*self),
        decreases self,
    {
        match self {
            HashTree::Empty => sha256(empty_domain_tag().as_slice()),
            HashTree::Fork(l, r) => {
                let mut buf = fork_domain_tag();
                let dl = l.digest();
                let dr = r.digest();
                append_bytes(&mut buf, dl.as_slice());
                append_bytes(&mut buf, dr.as_slice());
                sha256(buf.as_slice())
            },
            HashTree::Labeled(l, s) => {
                let mut buf = labeled_domain_tag();
                let ds = s.digest();
                append_bytes(&mut buf, l.as_slice());
                append_bytes(&mut buf, ds.as_slice());
                sha256(buf.as_slice())
            },
            HashTree::Leaf(v) => {
                let mut buf = leaf_domain_tag();
                append_bytes(&mut buf, v.as_slice());
                sha256(buf.as_slice())
            },
            HashTree::Pruned(d) => d.clone(),
        }
    }
}


/// The result of searching one level of a tree for a label.
pub ghost enum LabelOutcome {
    Found(HashTree),
    /// The label is provably not there.
    Absent,
    /// A pruned subtree hides the answer.
    Unknown,
    /// The label sorts before every label in the searched subtree.
    Before,
    /// The label sorts after every label in the searched subtree.
    After,
}

/// Searches the forks below `t` for the labeled node named `l`, relying on
/// labels being sorted from left to right.
pub open spec fn find_label_spec(l: Seq<u8>, t: HashTree) -> LabelOutcome
    decreases t,
{
    match t {
        HashTree::Labeled(l2, s) => {
            let c = lex_cmp(l, l2@);
            if c == 0 {
                LabelOutcome::Found(*s)
            } else if c < 0 {
                LabelOutcome::Before
            } else {
                LabelOutcome::After
            }
        },
        HashTree::Fork(a, b) => {
            let ra = find_label_spec(l, *a);
            match ra {
                LabelOutcome::Found(s) => LabelOutcome::Found(s),
                LabelOutcome::Before => LabelOutcome::Before,
                _ => match find_label_spec(l, *b) {
                    LabelOutcome::Found(s) => LabelOutcome::Found(s),
                    LabelOutcome::After => LabelOutcome::After,
                    LabelOutcome::Unknown => LabelOutcome::Unknown,
                    _ => if ra is Unknown {
                        LabelOutcome::Unknown
                    } else {
                        LabelOutcome::Absent
                    },
                },
            }
        },
        HashTree::Pruned(_) => LabelOutcome::Unknown,
        _ => LabelOutcome::Absent,
    }
}

/// The mathematical result of a path lookup.
pub ghost enum LookupOutcome {
    Found(Seq<u8>),
    Absent,
    Unknown,
    /// The path ends on a fork or a labeled node.
    Error,
}

/// Looks up `path` in `t`: the leaf value at its end, or why there is none.
pub open spec fn lookup_spec(path: Seq<Seq<u8>>, t: HashTree) -> LookupOutcome
    decreases path.len(),
{
    if path.len() == 0 {
        match t {
            HashTree::Leaf(v) => LookupOutcome::Found(v@),
            HashTree::Empty => LookupOutcome::Absent,
            HashTree::Pruned(_) => LookupOutcome::Unknown,
            _ => LookupOutcome::Error,
        }
    } else {
        match find_label_spec(path[0], t) {
            LabelOutcome::Found(s) => lookup_spec(path.drop_first(), s),
            LabelOutcome::Unknown => LookupOutcome::Unknown,
            _ => LookupOutcome::Absent,
        }
    }
}

/// The labels of a path, as byte strings.
pub open spec fn path_view(path: Seq<Label>) -> Seq<Seq<u8>> {
    path.map_values(|l: Label| l@)
}

/// A path that can only be resolved through a pruned branch has an unknown
/// result, whichever side of a concrete labeled branch the pruned one lies.
pub proof fn lemma_pruned_branch_unknown(
    l: Seq<u8>,
    rest: Seq<Seq<u8>>,
    d: Vec<u8>,
    other: Label,
    sub: HashTree,
)
    ensures
        lex_cmp(l, other@) < 0 ==> lookup_spec(seq![l] + rest, HashTree::Fork(
            Box::new(HashTree::Pruned(d)),
            Box::new(HashTree::Labeled(other, Box::new(sub))),
        )) == LookupOutcome::Unknown,
        lex_cmp(l, other@) > 0 ==> lookup_spec(seq![l] + rest, HashTree::Fork(
            Box::new(HashTree::Labeled(other, Box::new(sub))),
            Box::new(HashTree::Pruned(d)),
        )) == LookupOutcome::Unknown,
{
    let p = HashTree::Pruned(d);
    let c = HashTree::Labeled(other, Box::new(sub));
    assert((seq![l] + rest)[0] == l);
    assert(find_label_spec(l, p) == LabelOutcome::Unknown);
    if lex_cmp(l, other@) < 0 {
        assert(find_label_spec(l, c) == LabelOutcome::Before);
        assert(find_label_spec(l, HashTree::Fork(Box::new(p), Box::new(c))) == LabelOutcome::Unknown);
    }
    if lex_cmp(l, other@) > 0 {
        assert(find_label_spec(l, c) == LabelOutcome::After);
        assert(find_label_spec(l, HashTree::Fork(Box::new(c), Box::new(p))) == LabelOutcome::Unknown);
    }
}

/// The result of searching one level of a tree for a label.
pub enum LabelSearch<'a> {
    Found(&'a HashTree),
    Absent,
    Unknown,
    Before,
    After,
}

impl<'a> LabelSearch<'a> {
    pub open spec fn outcome(self) -> LabelOutcome {
        match self {
            LabelSearch::Found(t) => LabelOutcome::Found(*t),
            LabelSearch::Absent => LabelOutcome::Absent,
            LabelSearch::Unknown => LabelOutcome::Unknown,
            LabelSearch::Before => LabelOutcome::Before,
            LabelSearch::After => LabelOutcome::After,
        }
    }
}

/// The result of a path lookup.
pub enum LookupResult {
    Found(Vec<u8>),
    Absent,
    Unknown,
    Error,
}

impl LookupResult {
    pub open spec fn outcome(self) -> LookupOutcome {
        match self {
            LookupResult::Found(v) => LookupOutcome::Found(v@),
            LookupResult::Absent => LookupOutcome::Absent,
            LookupResult::Unknown => LookupOutcome::Unknown,
            LookupResult::Error => LookupOutcome::Error,
        }
    }
}

/// Searches the forks below `t` for the labeled node named `l`.
pub fn find_label<'a>(l: &[u8], t: &'a HashTree) -> (r: LabelSearch<'a>)
    ensures
        r.outcome() == find_label_spec(l@, *t),
    decreases t,
{
    match t {
        HashTree::Labeled(l2, s) => {
            let c = compare_bytes(l, l2.as_slice());
            if c == 0 {
                LabelSearch::Found(&**s)
            } else if c < 0 {
                LabelSearch::Before
            } else {
                LabelSearch::After
            }
        },
        HashTree::Fork(a, b) => {
            let ra = find_label(l, &**a);
            match ra {
                LabelSearch::Found(s) => LabelSearch::Found(s),
                LabelSearch::Before => LabelSearch::Before,
                _ => {
                    let a_unknown = match ra {
                        LabelSearch::Unknown => true,
                        _ => false,
                    };
                    match find_label(l, &**b) {
                        LabelSearch::Found(s) => LabelSearch::Found(s),
                        LabelSearch::After => LabelSearch::After,
                        LabelSearch::Unknown => LabelSearch::Unknown,
                        _ => if a_unknown {
                            LabelSearch::Unknown
                        } else {
                            LabelSearch::Absent
                        },
                    }
                },
            }
        },
        HashTree::Pruned(_) => LabelSearch::Unknown,
        _ => LabelSearch::Absent,
    }
}

/// Looks up `path` in `tree`: `Found` with the leaf value at its end,
/// `Absent` where the tree proves there is none, `Unknown` where a pruned
/// subtree hides the answer, and `Error` where the path ends on an inner node.
pub fn lookup_path(tree: &HashTree, path: &[Label]) -> (r: LookupResult)
    ensures
        r.outcome() == lookup_spec(path_view(path@), *tree),
{
    let ghost full = path_view(path@);
    let mut cur: &HashTree = tree;
    let mut i: usize = 0;
    assert(full.skip(0) =~= full);
    while i < path.len()
        invariant
            i <= path@.len(),
            full == path_view(path@),
            lookup_spec(full.skip(i as int), *cur) == lookup_spec(full, *tree),
        decreases path.len() - i,
    {
        let ghost rest = full.skip(i as int);
        assert(rest[0] == path@[i as int]@);
        assert(rest.drop_first() =~= full.skip(i + 1));
        match find_label(path[i].as_slice(), cur) {
            LabelSearch::Found(s) => {
                cur = s;
            },
            LabelSearch::Unknown => {
                return LookupResult::Unknown;
            },
            _ => {
                return LookupResult::Absent;
            },
        }
        i = i + 1;
    }
    match cur {
        HashTree::Leaf(v) => LookupResult::Found(v.clone()),
        HashTree::Empty => LookupResult::Absent,
        HashTree::Pruned(_) => LookupResult::Unknown,
        _ => LookupResult::Error,
    }
}

} // verus!
