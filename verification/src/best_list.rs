//! A list of bounded length that keeps the strongest records it was given,
//! strongest first.

use vstd::prelude::*;
use vstd::seq_lib::*;
use crate::ranking::{
    entry_position, in_rank_order, insert_ranked, keep_first, lemma_entry_position,
    lemma_entry_position_unique, lemma_insert_keeps_order, lemma_keep_first_insert,
    lemma_map_keeps_permutation, lemma_rank_all, rank_all,
};
use crate::record::{
    key_outranks, lemma_outranks_never_skips, lemma_record_order_ranks, outranks, rank_key,
    record_order, ChartInfoResponse, ChartInfoView, RankKey,
};
use crate::text::{lemma_text_before_total, lemma_text_before_transitive, text_before};

verus! {

/// The records that a list of `capacity` places holds after `record` was
/// pushed onto `held`: the record enters at its rank, behind the records that
/// are as strong as it is, and what no longer fits leaves at the weak end.
pub open spec fn after_push(held: Seq<ChartInfoView>, capacity: nat, record: ChartInfoView) -> Seq<
    ChartInfoView,
> {
    keep_first(insert_ranked(held, record, record_order()), capacity)
}

/// The records that an empty list of `capacity` places holds after the
/// records of `pushed` were pushed onto it, one after the other.
pub open spec fn after_pushes(capacity: nat, pushed: Seq<ChartInfoView>) -> Seq<ChartInfoView>
    decreases pushed.len(),
{
    if pushed.len() == 0 {
        Seq::empty()
    } else {
        after_push(after_pushes(capacity, pushed.drop_last()), capacity, pushed.last())
    }
}

/// A list of at most `size` records, strongest first.
pub struct BestList {
    data: Vec<ChartInfoResponse>,
    size: usize,
}

impl View for BestList {
    type V = Seq<ChartInfoView>;

    closed spec fn view(&self) -> Seq<ChartInfoView> {
        self.data.deep_view()
    }
}

impl BestList {
    /// The greatest number of records that the list holds.
    pub closed spec fn capacity(&self) -> nat {
        self.size as nat
    }

    #[verifier::type_invariant]
    spec fn well_formed(&self) -> bool {
        &&& self.data.len() <= self.size
        &&& in_rank_order(self.data.deep_view(), record_order())
    }

    /// An empty list with `size` places.
    pub fn new(size: usize) -> (list: Self)
        ensures
            list@ == Seq::<ChartInfoView>::empty(),
            list.capacity() == size,
    {
        let list = BestList { data: Vec::new(), size };
        assert(list.data.deep_view() =~= Seq::<ChartInfoView>::empty());
        list
    }

    /// The number of records in the list. It never exceeds the number of
    /// places, and the records always stand strongest first.
    pub fn len(&self) -> (n: usize)
        ensures
            n == self@.len(),
            n <= self.capacity(),
            in_rank_order(self@, record_order()),
    {
        proof {
            use_type_invariant(self);
        }
        self.data.len()
    }

    /// The number of places in the list.
    pub fn size(&self) -> (size: usize)
        ensures
            size == self.capacity(),
    {
        self.size
    }

    /// The record at rank `index`, where rank 0 is the strongest.
    pub fn get(&self, index: usize) -> (record: Option<&ChartInfoResponse>)
        ensures
            index < self@.len() ==> record is Some && record->0@ == self@[index as int],
            index >= self@.len() ==> record is None,
    {
        if index < self.data.len() {
            Some(&self.data[index])
        } else {
            None
        }
    }

    /// Offers `elem` to the list.
    ///
    /// The record enters at its rank. If the list is full, the weakest record
    /// leaves, which is `elem` itself unless it is strictly stronger than the
    /// weakest record that the list held.
    pub fn push(&mut self, elem: ChartInfoResponse)
        ensures
            final(self).capacity() == old(self).capacity(),
            final(self)@ == after_push(old(self)@, old(self).capacity(), elem@),
            final(self)@.len() <= final(self).capacity(),
            in_rank_order(final(self)@, record_order()),
            old(self)@.len() == old(self).capacity() && old(self)@.len() > 0 && !outranks(
                elem@,
                old(self)@.last(),
            ) ==> final(self)@ == old(self)@,
            old(self)@.len() == old(self).capacity() && old(self)@.len() > 0 && outranks(
                elem@,
                old(self)@.last(),
            ) ==> final(self)@.to_multiset() == old(self)@.to_multiset().remove(
                old(self)@.last(),
            ).insert(elem@) && final(self)@.len() == old(self)@.len(),
            old(self)@.len() < old(self).capacity() ==> final(self)@.to_multiset() == old(
                self,
            )@.to_multiset().insert(elem@),
    {
        proof {
            use_type_invariant(&*self);
            lemma_record_order_ranks();
            lemma_push_cases(self@, self.capacity(), elem@);
        }
        let len = self.data.len();
        if len >= self.size {
            if len == 0 {
                return;
            }
            if !elem.beats(&self.data[len - 1]) {
                return;
            }
        }
        let mut at: usize = 0;
        while at < len && !elem.beats(&self.data[at])
            invariant
                len == self.data.len(),
                at <= len,
                forall|i: int| 0 <= i < at ==> !outranks(elem@, #[trigger] self.data.deep_view()[i]),
            decreases len - at,
        {
            at += 1;
        }
        let ghost before = self.data.deep_view();
        let ghost entered = elem@;
        proof {
            assert forall|i: int| 0 <= i < at implies !record_order()(
                entered,
                #[trigger] before[i],
            ) by {}
            lemma_entry_position_unique(before, entered, record_order(), at as int);
        }
        let mut data: Vec<ChartInfoResponse> = Vec::new();
        assert(data.deep_view() =~= Seq::<ChartInfoView>::empty());
        core::mem::swap(&mut self.data, &mut data);
        data.insert(at, elem);
        assert(data.deep_view() =~= before.insert(at as int, entered));
        if data.len() > self.size {
            data.pop();
            assert(data.deep_view() =~= before.insert(at as int, entered).take(self.size as int));
        }
        core::mem::swap(&mut self.data, &mut data);
    }

    /// A list with `size` places onto which the records of `charts` were
    /// pushed, one after the other: it holds the `size` strongest of them.
    pub fn of_charts(size: usize, charts: Vec<ChartInfoResponse>) -> (list: Self)
        ensures
            list.capacity() == size,
            list@ == after_pushes(size as nat, charts.deep_view()),
            list@ == keep_first(rank_all(charts.deep_view(), record_order()), size as nat),
            list@.len() <= size,
    {
        proof {
            lemma_pushes_keep_strongest(size as nat, charts.deep_view());
        }
        let mut list = BestList::new(size);
        let ghost offered = charts.deep_view();
        let mut i: usize = 0;
        assert(offered.take(0) =~= Seq::<ChartInfoView>::empty());
        while i < charts.len()
            invariant
                i <= charts.len(),
                offered == charts.deep_view(),
                list.capacity() == size,
                list@ == after_pushes(size as nat, offered.take(i as int)),
                list@.len() <= size,
            decreases charts.len() - i,
        {
            proof {
                assert(offered.take(i + 1).drop_last() =~= offered.take(i as int));
                assert(offered.take(i + 1).last() == charts[i as int]@);
            }
            list.push(charts[i].clone());
            i += 1;
        }
        assert(offered.take(charts.len() as int) =~= offered);
        list
    }

    /// Takes the weakest record out of the list, if the list holds any.
    pub fn pop(&mut self) -> (weakest: Option<ChartInfoResponse>)
        ensures
            final(self).capacity() == old(self).capacity(),
            old(self)@.len() == 0 ==> weakest is None && final(self)@ == old(self)@,
            old(self)@.len() > 0 ==> weakest is Some && weakest->0@ == old(self)@.last()
                && final(self)@ == old(self)@.drop_last(),
    {
        proof {
            use_type_invariant(&*self);
        }
        let ghost before = self.data.deep_view();
        let mut data: Vec<ChartInfoResponse> = Vec::new();
        assert(data.deep_view() =~= Seq::<ChartInfoView>::empty());
        core::mem::swap(&mut self.data, &mut data);
        let weakest = data.pop();
        assert(before.len() > 0 ==> data.deep_view() =~= before.drop_last());
        assert(before.len() == 0 ==> data.deep_view() =~= before);
        core::mem::swap(&mut self.data, &mut data);
        weakest
    }
}

impl vstd::std_specs::core::IndexSpecImpl<usize> for BestList {
    /// A list is read at the ranks that it holds.
    open spec fn index_req(&self, index: &usize) -> bool {
        *index < self@.len()
    }
}

impl core::ops::Index<usize> for BestList {
    type Output = ChartInfoResponse;

    /// The record at rank `index`, where rank 0 is the strongest.
    fn index(&self, index: usize) -> (record: &ChartInfoResponse)
        ensures
            record@ == self@[index as int],
    {
        &self.data[index]
    }
}

/// What a push does to a list in rank order, case by case.
proof fn lemma_push_cases(held: Seq<ChartInfoView>, capacity: nat, record: ChartInfoView)
    requires
        held.len() <= capacity,
        in_rank_order(held, record_order()),
    ensures
        after_push(held, capacity, record).len() <= capacity,
        in_rank_order(after_push(held, capacity, record), record_order()),
        held.len() == capacity && capacity == 0 ==> after_push(held, capacity, record) == held,
        held.len() == capacity && held.len() > 0 && !outranks(record, held.last()) ==> after_push(
            held,
            capacity,
            record,
        ) == held,
        held.len() == capacity && held.len() > 0 && outranks(record, held.last()) ==> after_push(
            held,
            capacity,
            record,
        ).to_multiset() == held.to_multiset().remove(held.last()).insert(record) && after_push(
            held,
            capacity,
            record,
        ).len() == held.len(),
        held.len() < capacity ==> after_push(held, capacity, record) == insert_ranked(
            held,
            record,
            record_order(),
        ) && after_push(held, capacity, record).to_multiset() == held.to_multiset().insert(record),
{
    broadcast use vstd::multiset::group_multiset_axioms;

    let order = record_order();
    lemma_record_order_ranks();
    lemma_entry_position(held, record, order);
    lemma_insert_keeps_order(held, record, order);
    let p = entry_position(held, record, order);
    let entered = insert_ranked(held, record, order);
    let kept = after_push(held, capacity, record);
    to_multiset_insert(held, p, record);
    assert forall|i: int, j: int| 0 <= i < j < kept.len() implies !order(
        #[trigger] kept[j],
        #[trigger] kept[i],
    ) by {
        assert(kept[i] == entered[i]);
        assert(kept[j] == entered[j]);
    }
    if held.len() == capacity {
        if capacity == 0 {
            assert(kept =~= held);
        } else if !outranks(record, held.last()) {
            assert forall|i: int| 0 <= i < held.len() implies !order(record, #[trigger] held[i]) by {
                if i < held.len() - 1 {
                    assert(!order(held[held.len() - 1], held[i]));
                    lemma_outranks_never_skips(record, held.last(), held[i]);
                }
            }
            lemma_entry_position_unique(held, record, order, held.len() as int);
            assert(kept =~= held);
        } else {
            assert(p < held.len());
            assert(kept =~= entered.drop_last());
            assert(entered.last() == held.last());
            assert(kept =~= entered.remove(entered.len() - 1));
            to_multiset_remove(entered, entered.len() - 1);
            assert(kept.to_multiset() =~= held.to_multiset().remove(held.last()).insert(record));
        }
    } else {
        assert(kept =~= entered);
    }
}

/// Whatever is pushed, and in whatever order, the list holds no more records
/// than it has places, and it holds the strongest of all that were pushed:
/// the first `capacity` of the pushed records when these are arranged in rank
/// order, each behind the equally strong ones that were pushed before it.
pub proof fn lemma_pushes_keep_strongest(capacity: nat, pushed: Seq<ChartInfoView>)
    ensures
        after_pushes(capacity, pushed) == keep_first(rank_all(pushed, record_order()), capacity),
        after_pushes(capacity, pushed).len() <= capacity,
        after_pushes(capacity, pushed).len() == if pushed.len() <= capacity {
            pushed.len()
        } else {
            capacity
        },
        in_rank_order(rank_all(pushed, record_order()), record_order()),
        rank_all(pushed, record_order()).to_multiset() == pushed.to_multiset(),
    decreases pushed.len(),
{
    let order = record_order();
    lemma_record_order_ranks();
    lemma_rank_all(pushed, order);
    if pushed.len() > 0 {
        let front = pushed.drop_last();
        lemma_pushes_keep_strongest(capacity, front);
        lemma_rank_all(front, order);
        lemma_keep_first_insert(rank_all(front, order), pushed.last(), order, capacity);
    }
}

/// No record that was pushed and did not stay is stronger than one that stayed.
pub proof fn lemma_dropped_are_not_stronger(capacity: nat, pushed: Seq<ChartInfoView>, i: int, j: int)
    requires
        0 <= i < after_pushes(capacity, pushed).len(),
        after_pushes(capacity, pushed).len() <= j < pushed.len(),
    ensures
        after_pushes(capacity, pushed)[i] == rank_all(pushed, record_order())[i],
        !outranks(rank_all(pushed, record_order())[j], after_pushes(capacity, pushed)[i]),
{
    lemma_pushes_keep_strongest(capacity, pushed);
    lemma_record_order_ranks();
    lemma_rank_all(pushed, record_order());
    let ranked = rank_all(pushed, record_order());
    assert(!record_order()(ranked[j], ranked[i]));
}

/// The order in which records are pushed does not change how strong the
/// records are that stay: two runs of pushes that offer the same records end
/// with lists that agree, rank by rank, in rating, tier, achievement and title.
pub proof fn lemma_push_order_is_irrelevant(
    capacity: nat,
    first: Seq<ChartInfoView>,
    second: Seq<ChartInfoView>,
)
    requires
        first.to_multiset() == second.to_multiset(),
    ensures
        after_pushes(capacity, first).map_values(|r: ChartInfoView| rank_key(r)) == after_pushes(
            capacity,
            second,
        ).map_values(|r: ChartInfoView| rank_key(r)),
{
    let order = record_order();
    let key = |r: ChartInfoView| rank_key(r);
    let ranked_first = rank_all(first, order);
    let ranked_second = rank_all(second, order);
    lemma_pushes_keep_strongest(capacity, first);
    lemma_pushes_keep_strongest(capacity, second);
    lemma_map_keeps_permutation(ranked_first, ranked_second, key);
    let keys_first = ranked_first.map_values(key);
    let keys_second = ranked_second.map_values(key);
    let at_least = |a: RankKey, b: RankKey| !key_outranks(b, a);
    lemma_key_order_total();
    assert forall|i: int, j: int| 0 <= i < j < keys_first.len() implies #[trigger] at_least(
        keys_first[i],
        keys_first[j],
    ) by {
        assert(!order(ranked_first[j], ranked_first[i]));
    }
    assert forall|i: int, j: int| 0 <= i < j < keys_second.len() implies #[trigger] at_least(
        keys_second[i],
        keys_second[j],
    ) by {
        assert(!order(ranked_second[j], ranked_second[i]));
    }
    lemma_sorted_unique(keys_first, keys_second, at_least);
    assert(keys_first == keys_second);
    assert(after_pushes(capacity, first).map_values(key) =~= keep_first(keys_first, capacity));
    assert(after_pushes(capacity, second).map_values(key) =~= keep_first(keys_second, capacity));
}

/// "Not weaker than" is a total order of rank keys.
proof fn lemma_key_order_total()
    ensures
        vstd::relations::total_ordering(|a: RankKey, b: RankKey| !key_outranks(b, a)),
{
    let at_least = |a: RankKey, b: RankKey| !key_outranks(b, a);
    assert forall|a: RankKey| #[trigger] at_least(a, a) by {
        lemma_text_before_total(a.title, a.title);
    }
    assert forall|a: RankKey, b: RankKey| #[trigger] at_least(a, b) && #[trigger] at_least(
        b,
        a,
    ) implies a == b by {
        lemma_text_before_total(a.title, b.title);
    }
    assert forall|a: RankKey, b: RankKey, c: RankKey| #[trigger] at_least(a, b) && #[trigger] at_least(
        b,
        c,
    ) implies at_least(a, c) by {
        lemma_text_before_total(a.title, b.title);
        lemma_text_before_total(b.title, c.title);
        lemma_text_before_total(a.title, c.title);
        if text_before(c.title, b.title) && text_before(b.title, a.title) {
            lemma_text_before_transitive(c.title, b.title, a.title);
        }
    }
    assert forall|a: RankKey, b: RankKey| #[trigger] at_least(a, b) || #[trigger] at_least(
        b,
        a,
    ) by {
        lemma_text_before_total(a.title, b.title);
    }
}

} // verus!
