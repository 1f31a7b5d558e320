//! Completion of the directory name at the end of a path that is being typed.
//!
//! The names of the directories beside the typed one are put in order, and
//! the typed name is completed to the first name that it starts, or, when it
//! is one of the names already, replaced by the name that follows it.

use vstd::prelude::*;
use vstd::relations::{sorted_by, total_ordering};
use vstd::seq_lib::lemma_sorted_unique;
use vstd::string::StringSliceAdditionalSpecFns;
use vstd::utf8::encode_utf8;

use super::starts_with;

verus! {

/// The order of names, which is the order of strings: byte by byte, and a
/// name before every longer name that starts with it.
pub open spec fn name_le(a: Seq<u8>, b: Seq<u8>) -> bool
    decreases a.len(),
{
    if a.len() == 0 {
        true
    } else if b.len() == 0 {
        false
    } else if a[0] == b[0] {
        name_le(a.drop_first(), b.drop_first())
    } else {
        a[0] < b[0]
    }
}

/// [`name_le`] as a relation.
pub open spec fn name_order() -> spec_fn(Seq<u8>, Seq<u8>) -> bool {
    |a: Seq<u8>, b: Seq<u8>| name_le(a, b)
}

/// The bytes of each name.
pub open spec fn names_bytes(names: Seq<String>) -> Seq<Seq<u8>> {
    names.map_values(|name: String| encode_utf8(name@))
}

/// The names in order.
pub open spec fn sorted_names(names: Seq<Seq<u8>>) -> Seq<Seq<u8>> {
    names.sort_by(name_order())
}

/// How many names at the start of `sorted` come before `name`.
pub open spec fn names_before(sorted: Seq<Seq<u8>>, name: Seq<u8>) -> int
    decreases sorted.len(),
{
    if sorted.len() > 0 && !name_le(name, sorted[0]) {
        1 + names_before(sorted.drop_first(), name)
    } else {
        0
    }
}

/// The name that stands first among `names`, if there is any.
pub open spec fn first_name(names: Seq<Seq<u8>>) -> Option<Seq<u8>> {
    let sorted = sorted_names(names);
    if sorted.len() == 0 {
        None
    } else {
        Some(sorted[0])
    }
}

/// The name that completes `name` among `names`.
///
/// With the names in order, the first of them that does not come before
/// `name` decides. Where that is `name` itself, the completion is the name
/// after it, or the first name of all when it is the last. Where it is longer
/// than `name` and starts with it, it is the completion. In every other case
/// there is none.
pub open spec fn completion(names: Seq<Seq<u8>>, name: Seq<u8>) -> Option<Seq<u8>> {
    let sorted = sorted_names(names);
    let at = names_before(sorted, name);
    if at >= sorted.len() {
        None
    } else if sorted[at] == name {
        Some(sorted[(at + 1) % (sorted.len() as int)])
    } else if name.len() < sorted[at].len() && name.is_prefix_of(sorted[at]) {
        Some(sorted[at])
    } else {
        None
    }
}

proof fn lemma_name_le_reflexive(a: Seq<u8>)
    ensures
        name_le(a, a),
    decreases a.len(),
{
    if a.len() > 0 {
        lemma_name_le_reflexive(a.drop_first());
    }
}

proof fn lemma_name_le_antisymmetric(a: Seq<u8>, b: Seq<u8>)
    requires
        name_le(a, b),
        name_le(b, a),
    ensures
        a == b,
    decreases a.len(),
{
    if a.len() > 0 && b.len() > 0 {
        lemma_name_le_antisymmetric(a.drop_first(), b.drop_first());
        assert(a =~= seq![a[0]] + a.drop_first());
        assert(b =~= seq![b[0]] + b.drop_first());
    } else {
        assert(a =~= b);
    }
}

proof fn lemma_name_le_transitive(a: Seq<u8>, b: Seq<u8>, c: Seq<u8>)
    requires
        name_le(a, b),
        name_le(b, c),
    ensures
        name_le(a, c),
    decreases a.len(),
{
    if a.len() > 0 && a[0] == b[0] && b[0] == c[0] {
        lemma_name_le_transitive(a.drop_first(), b.drop_first(), c.drop_first());
    }
}

proof fn lemma_name_le_connected(a: Seq<u8>, b: Seq<u8>)
    ensures
        name_le(a, b) || name_le(b, a),
    decreases a.len(),
{
    if a.len() > 0 && b.len() > 0 && a[0] == b[0] {
        lemma_name_le_connected(a.drop_first(), b.drop_first());
    }
}

/// The order of names is a total order.
pub proof fn lemma_name_order_is_total()
    ensures
        total_ordering(name_order()),
{
    let order = name_order();
    assert forall|a: Seq<u8>, b: Seq<u8>| #[trigger] order(a, b) && #[trigger] order(b, a) implies a
        == b by {
        lemma_name_le_antisymmetric(a, b);
    }
    assert forall|a: Seq<u8>, b: Seq<u8>, c: Seq<u8>| #[trigger]
        order(a, b) && #[trigger] order(b, c) implies order(a, c) by {
        lemma_name_le_transitive(a, b, c);
    }
    assert forall|a: Seq<u8>, b: Seq<u8>| #[trigger] order(a, b) || #[trigger] order(b, a) by {
        lemma_name_le_connected(a, b);
    }
}

/// The names in order are the one arrangement of the names that is in
/// order: `sorted` is it where it has the names of `names`, each as often,
/// and is in order.
pub proof fn lemma_sorted_names(names: Seq<Seq<u8>>, sorted: Seq<Seq<u8>>)
    requires
        sorted_by(sorted, name_order()),
        sorted.to_multiset() == names.to_multiset(),
    ensures
        sorted_names(names) == sorted,
{
    lemma_name_order_is_total();
    names.lemma_sort_by_ensures(name_order());
    lemma_sorted_unique(sorted, sorted_names(names), name_order());
}

/// In names that are in order, the names before `name` are exactly the first
/// `names_before` of them.
proof fn lemma_names_before(sorted: Seq<Seq<u8>>, name: Seq<u8>, at: int)
    requires
        0 <= at <= sorted.len(),
        forall|i: int| 0 <= i < at ==> !name_le(name, #[trigger] sorted[i]),
        at < sorted.len() ==> name_le(name, sorted[at]),
    ensures
        names_before(sorted, name) == at,
    decreases sorted.len(),
{
    if at > 0 {
        let rest = sorted.drop_first();
        assert forall|i: int| 0 <= i < at - 1 implies !name_le(name, #[trigger] rest[i]) by {
            assert(rest[i] == sorted[i + 1]);
        }
        lemma_names_before(rest, name, at - 1);
    }
}

/// Whether `a` comes before `b`, or is `b`, in the order of names.
fn is_name_le(a: &[u8], b: &[u8]) -> (le: bool)
    ensures
        le == name_le(a@, b@),
{
    let mut at: usize = 0;
    assert(a@.skip(0) =~= a@ && b@.skip(0) =~= b@);
    while at < a.len() && at < b.len() && a[at] == b[at]
        invariant
            at <= a.len(),
            at <= b.len(),
            name_le(a@, b@) == name_le(a@.skip(at as int), b@.skip(at as int)),
        decreases a.len() - at,
    {
        assert(a@.skip(at as int).drop_first() =~= a@.skip(at + 1));
        assert(b@.skip(at as int).drop_first() =~= b@.skip(at + 1));
        at += 1;
    }
    if at == a.len() {
        true
    } else if at == b.len() {
        false
    } else {
        a[at] < b[at]
    }
}

/// Whether `a` and `b` are the same bytes.
fn is_same_name(a: &[u8], b: &[u8]) -> (same: bool)
    ensures
        same == (a@ == b@),
{
    let le = is_name_le(a, b);
    let ge = is_name_le(b, a);
    proof {
        if le && ge {
            lemma_name_le_antisymmetric(a@, b@);
        }
        if a@ == b@ {
            lemma_name_le_reflexive(a@);
        }
    }
    le && ge
}

/// Whether `name` is shorter than `longer` and starts it.
fn is_proper_prefix(name: &[u8], longer: &[u8]) -> (starts: bool)
    ensures
        starts == (name@.len() < longer@.len() && name@.is_prefix_of(longer@)),
{
    name.len() < longer.len() && starts_with(longer, name)
}

/// Where `name` goes among names that are in order: behind all that come
/// before it.
fn position(sorted: &Vec<String>, name: &[u8]) -> (at: usize)
    ensures
        at <= sorted.len(),
        forall|i: int| 0 <= i < at ==> !name_le(name@, #[trigger] names_bytes(sorted@)[i]),
        at < sorted.len() ==> name_le(name@, names_bytes(sorted@)[at as int]),
{
    let mut at: usize = 0;
    while at < sorted.len() && !is_name_le(name, sorted[at].as_str().as_bytes())
        invariant
            at <= sorted.len(),
            forall|i: int| 0 <= i < at ==> !name_le(name@, #[trigger] names_bytes(sorted@)[i]),
        decreases sorted.len() - at,
    {
        at += 1;
    }
    at
}

/// Puts the names in order.
fn sort_names(names: Vec<String>) -> (sorted: Vec<String>)
    ensures
        names_bytes(sorted@) == sorted_names(names_bytes(names@)),
{
    let ghost all = names_bytes(names@);
    let mut rest = names;
    let mut sorted: Vec<String> = Vec::new();
    proof {
        lemma_name_order_is_total();
        assert(names_bytes(sorted@).to_multiset().add(names_bytes(rest@).to_multiset())
            =~= all.to_multiset()) by {
            broadcast use vstd::seq_lib::group_to_multiset_ensures;

            assert(names_bytes(sorted@) =~= Seq::<Seq<u8>>::empty());
        }
    }
    while rest.len() > 0
        invariant
            total_ordering(name_order()),
            sorted_by(names_bytes(sorted@), name_order()),
            names_bytes(sorted@).to_multiset().add(names_bytes(rest@).to_multiset())
                == all.to_multiset(),
        decreases rest.len(),
    {
        let ghost before = names_bytes(sorted@);
        let ghost pending = names_bytes(rest@);
        let name = rest.pop().unwrap();
        let at = position(&sorted, name.as_str().as_bytes());
        sorted.insert(at, name);
        proof {
            let key = encode_utf8(name@);
            let after = names_bytes(sorted@);
            assert(after =~= before.insert(at as int, key));
            assert(pending =~= names_bytes(rest@).push(key));
            vstd::seq_lib::to_multiset_insert(before, at as int, key);
            vstd::seq_lib::to_multiset_build(names_bytes(rest@), key);
            assert forall|i: int, j: int| 0 <= i < j < after.len() implies name_le(
                after[i],
                after[j],
            ) by {
                if j == at {
                    lemma_name_le_connected(key, before[i]);
                } else if i == at {
                    if j - 1 > at {
                        assert(name_order()(before[at as int], before[j - 1]));
                        lemma_name_le_transitive(key, before[at as int], before[j - 1]);
                    }
                } else if i < at && j < at {
                    assert(name_order()(before[i], before[j]));
                } else if i < at {
                    assert(name_order()(before[i], before[j - 1]));
                } else {
                    assert(name_order()(before[i - 1], before[j - 1]));
                }
            }
        }
    }
    proof {
        assert(names_bytes(sorted@).to_multiset() =~= all.to_multiset()) by {
            broadcast use vstd::seq_lib::group_to_multiset_ensures;

            assert(names_bytes(rest@) =~= Seq::<Seq<u8>>::empty());
        }
        lemma_sorted_names(all, names_bytes(sorted@));
    }
    sorted
}

/// Completes the names of directories.
pub struct PathCompletion;

impl PathCompletion {
    /// The directory to offer inside a directory that was typed in full: the
    /// one whose name stands first among `directories`.
    pub fn first(&self, directories: Vec<String>) -> (offer: Option<String>)
        ensures
            match offer {
                Some(directory) => first_name(names_bytes(directories@)) == Some(
                    encode_utf8(directory@),
                ),
                None => first_name(names_bytes(directories@)) is None,
            },
    {
        let sorted = sort_names(directories);
        if sorted.len() == 0 {
            None
        } else {
            Some(sorted[0].clone())
        }
    }

    /// The directory to offer for a `name` that was typed in part, among the
    /// `directories` beside it: the first that `name` starts, or the one
    /// after `name` where `name` is a directory already.
    pub fn next(&self, directories: Vec<String>, name: &str) -> (offer: Option<String>)
        ensures
            match offer {
                Some(directory) => completion(names_bytes(directories@), name.spec_bytes())
                    == Some(encode_utf8(directory@)),
                None => completion(names_bytes(directories@), name.spec_bytes()) is None,
            },
    {
        let sorted = sort_names(directories);
        let typed = name.as_bytes();
        let at = position(&sorted, typed);
        proof {
            lemma_names_before(names_bytes(sorted@), typed@, at as int);
        }
        if at >= sorted.len() {
            return None;
        }
        let found = sorted[at].as_str().as_bytes();
        if is_same_name(found, typed) {
            let after = if at + 1 < sorted.len() {
                at + 1
            } else {
                0
            };
            assert(after == (at + 1) % (sorted.len() as int)) by (nonlinear_arith)
                requires
                    at < sorted.len(),
                    after == if at + 1 < sorted.len() {
                        at + 1
                    } else {
                        0
                    },
            ;
            Some(sorted[after].clone())
        } else if is_proper_prefix(typed, found) {
            Some(sorted[at].clone())
        } else {
            None
        }
    }
}

} // verus!
