//! The order in which names are listed: character by character, a name before
//! every longer name that begins with it.

use vstd::prelude::*;
use vstd::relations::{sorted_by, total_ordering};
use vstd::seq_lib::{lemma_sorted_unique, to_multiset_insert};
use crate::text::{chars_of, texts};

verus! {

/// `a` stands at or before `b` in the order of names.
pub open spec fn text_le(a: Seq<char>, b: Seq<char>) -> bool
    decreases a.len(),
{
    if a.len() == 0 {
        true
    } else if b.len() == 0 {
        false
    } else if a[0] != b[0] {
        (a[0] as int) < (b[0] as int)
    } else {
        text_le(a.drop_first(), b.drop_first())
    }
}

/// The order of names as a relation.
pub open spec fn name_order() -> spec_fn(Seq<char>, Seq<char>) -> bool {
    |a: Seq<char>, b: Seq<char>| text_le(a, b)
}

/// `names` in the order of names.
pub open spec fn in_name_order(names: Seq<Seq<char>>) -> Seq<Seq<char>> {
    names.sort_by(name_order())
}

proof fn lemma_text_le_reflexive(a: Seq<char>)
    ensures
        text_le(a, a),
    decreases a.len(),
{
    if a.len() > 0 {
        lemma_text_le_reflexive(a.drop_first());
    }
}

proof fn lemma_text_le_antisymmetric(a: Seq<char>, b: Seq<char>)
    requires
        text_le(a, b),
        text_le(b, a),
    ensures
        a == b,
    decreases a.len(),
{
    if a.len() > 0 && b.len() > 0 {
        lemma_text_le_antisymmetric(a.drop_first(), b.drop_first());
        assert(b =~= seq![b[0]] + b.drop_first());
    }
}

proof fn lemma_text_le_transitive(a: Seq<char>, b: Seq<char>, c: Seq<char>)
    requires
        text_le(a, b),
        text_le(b, c),
    ensures
        text_le(a, c),
    decreases a.len(),
{
    if a.len() > 0 && b.len() > 0 && c.len() > 0 {
        if a[0] == b[0] && b[0] == c[0] {
            lemma_text_le_transitive(a.drop_first(), b.drop_first(), c.drop_first());
        }
    }
}

proof fn lemma_text_le_connected(a: Seq<char>, b: Seq<char>)
    ensures
        text_le(a, b) || text_le(b, a),
    decreases a.len(),
{
    if a.len() > 0 && b.len() > 0 && a[0] == b[0] {
        lemma_text_le_connected(a.drop_first(), b.drop_first());
    }
}

/// The order of names is total: any two names compare, and only equal names
/// compare both ways.
pub proof fn lemma_name_order_total()
    ensures
        total_ordering(name_order()),
{
    let r = name_order();
    assert forall|a: Seq<char>| #[trigger] r(a, a) by {
        lemma_text_le_reflexive(a);
    }
    assert forall|a: Seq<char>, b: Seq<char>| #[trigger] r(a, b) && #[trigger] r(b, a) implies a
        == b by {
        lemma_text_le_antisymmetric(a, b);
    }
    assert forall|a: Seq<char>, b: Seq<char>, c: Seq<char>| #[trigger]
        r(a, b) && #[trigger] r(b, c) implies r(a, c) by {
        lemma_text_le_transitive(a, b, c);
    }
    assert forall|a: Seq<char>, b: Seq<char>| #[trigger] r(a, b) || #[trigger] r(b, a) by {
        lemma_text_le_connected(a, b);
    }
}

/// A sequence in the order of names that holds what `names` holds is `names`
/// in the order of names.
pub proof fn lemma_in_name_order_is(sorted: Seq<Seq<char>>, names: Seq<Seq<char>>)
    requires
        sorted_by(sorted, name_order()),
        sorted.to_multiset() == names.to_multiset(),
    ensures
        sorted == in_name_order(names),
{
    lemma_name_order_total();
    names.lemma_sort_by_ensures(name_order());
    lemma_sorted_unique(sorted, in_name_order(names), name_order());
}

/// Whether `a` stands at or before `b` in the order of names.
pub fn chars_le(a: &Vec<char>, b: &Vec<char>) -> (le: bool)
    ensures
        le == text_le(a@, b@),
{
    let mut i: usize = 0;
    assert(a@.subrange(0, a@.len() as int) =~= a@);
    assert(b@.subrange(0, b@.len() as int) =~= b@);
    while i < a.len() && i < b.len()
        invariant
            i <= a.len(),
            i <= b.len(),
            text_le(a@, b@) == text_le(
                a@.subrange(i as int, a@.len() as int),
                b@.subrange(i as int, b@.len() as int),
            ),
        decreases a.len() - i,
    {
        let x = a[i];
        let y = b[i];
        proof {
            let ra = a@.subrange(i as int, a@.len() as int);
            let rb = b@.subrange(i as int, b@.len() as int);
            assert(ra.drop_first() =~= a@.subrange(i + 1, a@.len() as int));
            assert(rb.drop_first() =~= b@.subrange(i + 1, b@.len() as int));
        }
        if x != y {
            return x < y;
        }
        i += 1;
    }
    i == a.len()
}

/// `names` in the order of names.
pub fn sort_names(names: &Vec<String>) -> (sorted: Vec<String>)
    ensures
        texts(sorted@) == in_name_order(texts(names@)),
{
    let mut sorted: Vec<String> = Vec::new();
    let mut keys: Vec<Vec<char>> = Vec::new();
    let mut i: usize = 0;
    assert(texts(names@).subrange(0, 0) =~= texts(sorted@));
    while i < names.len()
        invariant
            i <= names.len(),
            sorted.len() == i,
            keys.len() == i,
            forall|k: int| 0 <= k < i ==> (#[trigger] keys@[k])@ == sorted@[k]@,
            sorted_by(texts(sorted@), name_order()),
            texts(sorted@).to_multiset() == texts(names@).subrange(0, i as int).to_multiset(),
        decreases names.len() - i,
    {
        let name = names[i].clone();
        let key = chars_of(name.as_str());
        let mut at: usize = 0;
        while at < keys.len() && chars_le(&keys[at], &key)
            invariant
                at <= keys.len(),
                keys.len() == sorted.len(),
                forall|k: int| 0 <= k < keys.len() ==> (#[trigger] keys@[k])@ == sorted@[k]@,
                forall|k: int| 0 <= k < at ==> text_le(#[trigger] sorted@[k]@, key@),
            decreases keys.len() - at,
        {
            at += 1;
        }
        proof {
            let before = texts(sorted@);
            let after = before.insert(at as int, name@);
            assert(texts(sorted@.insert(at as int, name)) =~= after);
            to_multiset_insert(before, at as int, name@);
            let taken = texts(names@).subrange(0, i as int);
            assert(texts(names@).subrange(0, i + 1) =~= taken.push(name@));
            vstd::seq_lib::to_multiset_build(taken, name@);
            assert forall|p: int, q: int| 0 <= p < q < after.len() implies #[trigger] name_order()(
                after[p],
                after[q],
            ) by {
                if p == at {
                    lemma_text_le_connected(before[at as int], name@);
                    if q - 1 > at {
                        assert(name_order()(before[at as int], before[q - 1]));
                        lemma_text_le_transitive(name@, before[at as int], before[q - 1]);
                    }
                }
            }
        }
        sorted.insert(at, name);
        keys.insert(at, key);
        i += 1;
    }
    proof {
        assert(texts(names@).subrange(0, names@.len() as int) =~= texts(names@));
        lemma_in_name_order_is(texts(sorted@), texts(names@));
    }
    sorted
}

} // verus!
