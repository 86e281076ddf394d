//! Sequences kept in rank order.
//!
//! A relation `beats` says which of two items has to stand first. An item
//! enters a ranked sequence in front of the first item that it beats, and so
//! behind every item that it ties with: among equals, the earlier arrival
//! stays in front.

use vstd::prelude::*;
use vstd::seq_lib::*;

verus! {

/// Whether `beats` can rank anything: nothing beats itself, and whatever
/// beats an item also beats all that this item beats.
pub open spec fn ranks<T>(beats: spec_fn(T, T) -> bool) -> bool {
    &&& forall|a: T| !#[trigger] beats(a, a)
    &&& forall|a: T, b: T, c: T| #[trigger] beats(a, b) && #[trigger] beats(b, c) ==> beats(a, c)
}

/// Whether no item of `s` is beaten by an item behind it.
pub open spec fn in_rank_order<T>(s: Seq<T>, beats: spec_fn(T, T) -> bool) -> bool {
    forall|i: int, j: int| 0 <= i < j < s.len() ==> !beats(#[trigger] s[j], #[trigger] s[i])
}

/// The place at which `x` enters `s`: the index of the first item that `x`
/// beats, or the length of `s` if it beats none.
pub open spec fn entry_position<T>(s: Seq<T>, x: T, beats: spec_fn(T, T) -> bool) -> int
    decreases s.len(),
{
    if s.len() == 0 {
        0
    } else if beats(x, s[0]) {
        0
    } else {
        1 + entry_position(s.drop_first(), x, beats)
    }
}

/// `s` with `x` entered at its place.
pub open spec fn insert_ranked<T>(s: Seq<T>, x: T, beats: spec_fn(T, T) -> bool) -> Seq<T> {
    s.insert(entry_position(s, x, beats), x)
}

/// The items of `inputs`, entered one after the other into an empty sequence.
pub open spec fn rank_all<T>(inputs: Seq<T>, beats: spec_fn(T, T) -> bool) -> Seq<T>
    decreases inputs.len(),
{
    if inputs.len() == 0 {
        Seq::empty()
    } else {
        insert_ranked(rank_all(inputs.drop_last(), beats), inputs.last(), beats)
    }
}

/// The first `limit` items of `s`, or all of them if there are fewer.
pub open spec fn keep_first<T>(s: Seq<T>, limit: nat) -> Seq<T> {
    if s.len() <= limit {
        s
    } else {
        s.take(limit as int)
    }
}

/// What the entry position is: it lies within `s`, `x` beats no item in front
/// of it, and `x` beats the item that stands there.
pub proof fn lemma_entry_position<T>(s: Seq<T>, x: T, beats: spec_fn(T, T) -> bool)
    ensures
        0 <= entry_position(s, x, beats) <= s.len(),
        forall|i: int| 0 <= i < entry_position(s, x, beats) ==> !beats(x, #[trigger] s[i]),
        entry_position(s, x, beats) < s.len() ==> beats(x, s[entry_position(s, x, beats)]),
    decreases s.len(),
{
    if s.len() > 0 && !beats(x, s[0]) {
        let rest = s.drop_first();
        lemma_entry_position(rest, x, beats);
        let p = entry_position(rest, x, beats);
        assert forall|i: int| 0 <= i < p + 1 implies !beats(x, #[trigger] s[i]) by {
            if i > 0 {
                assert(s[i] == rest[i - 1]);
            }
        }
        if p < rest.len() {
            assert(s[p + 1] == rest[p]);
        }
    }
}

/// The entry position is the only place with these properties.
pub proof fn lemma_entry_position_unique<T>(
    s: Seq<T>,
    x: T,
    beats: spec_fn(T, T) -> bool,
    p: int,
)
    requires
        0 <= p <= s.len(),
        forall|i: int| 0 <= i < p ==> !beats(x, #[trigger] s[i]),
        p < s.len() ==> beats(x, s[p]),
    ensures
        entry_position(s, x, beats) == p,
{
    lemma_entry_position(s, x, beats);
    let q = entry_position(s, x, beats);
    if q < p {
        assert(!beats(x, s[q]));
    } else if p < q {
        assert(!beats(x, s[p]));
    }
}

/// Entering an item keeps the rank order.
pub proof fn lemma_insert_keeps_order<T>(s: Seq<T>, x: T, beats: spec_fn(T, T) -> bool)
    requires
        ranks(beats),
        in_rank_order(s, beats),
    ensures
        in_rank_order(insert_ranked(s, x, beats), beats),
{
    lemma_entry_position(s, x, beats);
    let p = entry_position(s, x, beats);
    let t = insert_ranked(s, x, beats);
    assert forall|i: int, j: int| 0 <= i < j < t.len() implies !beats(
        #[trigger] t[j],
        #[trigger] t[i],
    ) by {
        if j == p {
            assert(t[i] == s[i]);
        } else if i == p {
            assert(t[j] == s[j - 1]);
            if beats(s[j - 1], x) {
                assert(beats(s[j - 1], s[p]));
                if j - 1 > p {
                    assert(!beats(s[j - 1], s[p]));
                }
            }
        } else {
            let si = if i < p { i } else { i - 1 };
            let sj = if j < p { j } else { j - 1 };
            assert(t[i] == s[si]);
            assert(t[j] == s[sj]);
            assert(!beats(s[sj], s[si]));
        }
    }
}

/// Entering all items gives a sequence in rank order that holds exactly the
/// items that were entered, each as often as it was entered.
pub proof fn lemma_rank_all<T>(inputs: Seq<T>, beats: spec_fn(T, T) -> bool)
    requires
        ranks(beats),
    ensures
        in_rank_order(rank_all(inputs, beats), beats),
        rank_all(inputs, beats).to_multiset() == inputs.to_multiset(),
        rank_all(inputs, beats).len() == inputs.len(),
    decreases inputs.len(),
{
    if inputs.len() == 0 {
        assert(inputs =~= Seq::empty());
    } else {
        let front = inputs.drop_last();
        let ranked = rank_all(front, beats);
        lemma_rank_all(front, beats);
        lemma_insert_keeps_order(ranked, inputs.last(), beats);
        lemma_entry_position(ranked, inputs.last(), beats);
        to_multiset_insert(ranked, entry_position(ranked, inputs.last(), beats), inputs.last());
        to_multiset_build(front, inputs.last());
        assert(front.push(inputs.last()) =~= inputs);
    }
}

/// Items behind the first `limit` have no say in what the first `limit` are
/// after another item has entered.
pub proof fn lemma_keep_first_insert<T>(
    s: Seq<T>,
    x: T,
    beats: spec_fn(T, T) -> bool,
    limit: nat,
)
    ensures
        keep_first(insert_ranked(keep_first(s, limit), x, beats), limit) == keep_first(
            insert_ranked(s, x, beats),
            limit,
        ),
{
    if s.len() > limit {
        let head = s.take(limit as int);
        lemma_entry_position(s, x, beats);
        lemma_entry_position(head, x, beats);
        let p = entry_position(s, x, beats);
        if p < limit {
            assert forall|i: int| 0 <= i < p implies !beats(x, #[trigger] head[i]) by {
                assert(head[i] == s[i]);
            }
            assert(head[p] == s[p]);
            lemma_entry_position_unique(head, x, beats, p);
        } else {
            assert forall|i: int| 0 <= i < limit implies !beats(x, #[trigger] head[i]) by {
                assert(head[i] == s[i]);
            }
            lemma_entry_position_unique(head, x, beats, limit as int);
        }
        assert(keep_first(insert_ranked(head, x, beats), limit) =~= keep_first(
            insert_ranked(s, x, beats),
            limit,
        ));
    }
}

/// A permutation of a sequence, taken through any function, is a permutation
/// of the sequence taken through that function.
pub proof fn lemma_map_keeps_permutation<T, K>(a: Seq<T>, b: Seq<T>, key: spec_fn(T) -> K)
    requires
        a.to_multiset() == b.to_multiset(),
    ensures
        a.map_values(key).to_multiset() == b.map_values(key).to_multiset(),
    decreases a.len(),
{
    broadcast use vstd::multiset::group_multiset_axioms;
    broadcast use group_to_multiset_ensures;

    if a.len() == 0 {
        assert(b.to_multiset().len() == 0);
        assert(b.len() == 0);
        assert(a.map_values(key) =~= b.map_values(key));
    } else {
        let x = a.last();
        assert(a.to_multiset().count(x) > 0);
        assert(b.contains(x));
        let i = b.index_of(x);
        let a1 = a.drop_last();
        let b1 = b.remove(i);
        assert(a1 =~= a.remove(a.len() - 1));
        to_multiset_remove(a, a.len() - 1);
        to_multiset_remove(b, i);
        lemma_map_keeps_permutation(a1, b1, key);
        assert(a.map_values(key) =~= a1.map_values(key).push(key(x)));
        assert(b.map_values(key) =~= b1.map_values(key).insert(i, key(x)));
        to_multiset_build(a1.map_values(key), key(x));
        to_multiset_insert(b1.map_values(key), i, key(x));
    }
}

} // verus!
