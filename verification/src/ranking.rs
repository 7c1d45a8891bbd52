use vstd::prelude::*;
use vstd::multiset::Multiset;

use crate::bot_type::BotType;
use crate::flight::rank_key;
use crate::flight::spec_rank_key;
use crate::flight::Flight;
use crate::flight::FlightData;

verus! {

/// `s` is ordered ascending by the category's metric.
pub open spec fn spec_sorted_by_rank(s: Seq<FlightData>, cat: BotType) -> bool {
    forall|i: int, j: int|
        0 <= i <= j < s.len() ==> spec_rank_key(s[i], cat) <= spec_rank_key(s[j], cat)
}

/// Inserts `x` into `s` after every element whose key is at most `x`'s, so
/// that inserting the elements of a sequence one by one is a stable sort.
pub open spec fn spec_insert_ranked(s: Seq<FlightData>, x: FlightData, cat: BotType) -> Seq<
    FlightData,
>
    decreases s.len(),
{
    if s.len() == 0 {
        seq![x]
    } else if spec_rank_key(s.last(), cat) <= spec_rank_key(x, cat) {
        s.push(x)
    } else {
        spec_insert_ranked(s.drop_last(), x, cat).push(s.last())
    }
}

/// The stable ascending sort of `s` by the category's metric: the exact
/// sequence the ranking step produces, ties left in their arriving order.
pub open spec fn spec_rank_sort(s: Seq<FlightData>, cat: BotType) -> Seq<FlightData>
    decreases s.len(),
{
    if s.len() == 0 {
        Seq::<FlightData>::empty()
    } else {
        spec_insert_ranked(spec_rank_sort(s.drop_last(), cat), s.last(), cat)
    }
}

/// The top `n` flights: the tail of the ascending sort, still ascending, so
/// the overall winner stands last.
pub open spec fn spec_top_ranked(s: Seq<FlightData>, cat: BotType, n: nat) -> Seq<FlightData> {
    let sorted = spec_rank_sort(s, cat);
    if sorted.len() <= n {
        sorted
    } else {
        sorted.skip(sorted.len() - n)
    }
}

proof fn lemma_insert_ranked_len(s: Seq<FlightData>, x: FlightData, cat: BotType)
    ensures
        spec_insert_ranked(s, x, cat).len() == s.len() + 1,
    decreases s.len(),
{
    if s.len() > 0 && !(spec_rank_key(s.last(), cat) <= spec_rank_key(x, cat)) {
        lemma_insert_ranked_len(s.drop_last(), x, cat);
    }
}

/// Everything `insert` produces is either `x` or an element of `s`.
proof fn lemma_insert_ranked_membership(s: Seq<FlightData>, x: FlightData, cat: BotType)
    ensures
        spec_insert_ranked(s, x, cat).to_multiset() == s.to_multiset().insert(x),
    decreases s.len(),
{
    broadcast use vstd::seq_lib::group_to_multiset_ensures;

    if s.len() == 0 {
        assert(seq![x] =~= Seq::<FlightData>::empty().push(x));
        assert(Seq::<FlightData>::empty().to_multiset() =~= Multiset::<FlightData>::empty());
    } else if spec_rank_key(s.last(), cat) <= spec_rank_key(x, cat) {
    } else {
        lemma_insert_ranked_membership(s.drop_last(), x, cat);
        assert(s.drop_last().push(s.last()) =~= s);
        assert(s.drop_last().to_multiset().insert(s.last()) =~= s.to_multiset());
        assert(spec_insert_ranked(s.drop_last(), x, cat).push(s.last()).to_multiset()
            =~= spec_insert_ranked(s.drop_last(), x, cat).to_multiset().insert(s.last()));
    }
}

proof fn lemma_insert_ranked_sorted(s: Seq<FlightData>, x: FlightData, cat: BotType)
    requires
        spec_sorted_by_rank(s, cat),
    ensures
        spec_sorted_by_rank(spec_insert_ranked(s, x, cat), cat),
    decreases s.len(),
{
    lemma_insert_ranked_len(s, x, cat);
    if s.len() == 0 {
    } else if spec_rank_key(s.last(), cat) <= spec_rank_key(x, cat) {
    } else {
        assert(spec_sorted_by_rank(s.drop_last(), cat));
        lemma_insert_ranked_sorted(s.drop_last(), x, cat);
        lemma_insert_ranked_len(s.drop_last(), x, cat);
        lemma_insert_ranked_key_bound(s.drop_last(), x, cat);
        let t = spec_insert_ranked(s.drop_last(), x, cat).push(s.last());
        assert forall|i: int, j: int| 0 <= i <= j < t.len() implies spec_rank_key(t[i], cat)
            <= spec_rank_key(t[j], cat) by {
            if j < t.len() - 1 {
            } else if i < t.len() - 1 {
                let u = spec_insert_ranked(s.drop_last(), x, cat);
                assert(spec_rank_key(u[i], cat) <= spec_rank_key(s.last(), cat));
            }
        }
    }
}

/// Every key in `insert(s, x)` is bounded by the larger of `x`'s key and the
/// keys already in `s`.
proof fn lemma_insert_ranked_key_bound(s: Seq<FlightData>, x: FlightData, cat: BotType)
    requires
        spec_sorted_by_rank(s, cat),
    ensures
        forall|i: int|
            0 <= i < spec_insert_ranked(s, x, cat).len() ==> spec_rank_key(
                spec_insert_ranked(s, x, cat)[i],
                cat,
            ) <= spec_rank_key(x, cat) || (s.len() > 0 && spec_rank_key(
                spec_insert_ranked(s, x, cat)[i],
                cat,
            ) <= spec_rank_key(s.last(), cat)),
    decreases s.len(),
{
    lemma_insert_ranked_len(s, x, cat);
    if s.len() == 0 {
    } else if spec_rank_key(s.last(), cat) <= spec_rank_key(x, cat) {
    } else {
        assert(spec_sorted_by_rank(s.drop_last(), cat));
        lemma_insert_ranked_key_bound(s.drop_last(), x, cat);
        lemma_insert_ranked_len(s.drop_last(), x, cat);
    }
}

/// The sort is a permutation: nothing is lost, nothing is invented.
pub proof fn lemma_rank_sort_permutes(s: Seq<FlightData>, cat: BotType)
    ensures
        spec_rank_sort(s, cat).to_multiset() == s.to_multiset(),
        spec_rank_sort(s, cat).len() == s.len(),
    decreases s.len(),
{
    broadcast use vstd::seq_lib::group_to_multiset_ensures;

    if s.len() == 0 {
        assert(Seq::<FlightData>::empty().to_multiset() =~= Multiset::<FlightData>::empty());
    } else {
        lemma_rank_sort_permutes(s.drop_last(), cat);
        lemma_insert_ranked_membership(spec_rank_sort(s.drop_last(), cat), s.last(), cat);
        lemma_insert_ranked_len(spec_rank_sort(s.drop_last(), cat), s.last(), cat);
        assert(s.drop_last().push(s.last()) =~= s);
        assert(s.drop_last().to_multiset().insert(s.last()) =~= s.to_multiset());
    }
}

/// The sort orders ascending by the category's metric.
pub proof fn lemma_rank_sort_sorted(s: Seq<FlightData>, cat: BotType)
    ensures
        spec_sorted_by_rank(spec_rank_sort(s, cat), cat),
    decreases s.len(),
{
    if s.len() > 0 {
        lemma_rank_sort_sorted(s.drop_last(), cat);
        lemma_insert_ranked_sorted(spec_rank_sort(s.drop_last(), cat), s.last(), cat);
    }
}

/// Sorting something already sorted changes nothing: reading leaders back
/// from the store and ranking them again reproduces them exactly.
pub proof fn lemma_rank_sort_of_sorted(s: Seq<FlightData>, cat: BotType)
    requires
        spec_sorted_by_rank(s, cat),
    ensures
        spec_rank_sort(s, cat) == s,
    decreases s.len(),
{
    if s.len() > 0 {
        assert(spec_sorted_by_rank(s.drop_last(), cat));
        lemma_rank_sort_of_sorted(s.drop_last(), cat);
        if s.len() == 1 {
            assert(spec_insert_ranked(Seq::<FlightData>::empty(), s.last(), cat) =~= s);
        } else {
            assert(spec_rank_key(s.drop_last().last(), cat) <= spec_rank_key(s.last(), cat));
            assert(s.drop_last().push(s.last()) =~= s);
        }
    }
}

/// The last element of the sort carries a maximal key.
pub proof fn lemma_rank_sort_last_is_max(s: Seq<FlightData>, cat: BotType)
    requires
        s.len() > 0,
    ensures
        spec_rank_sort(s, cat).len() == s.len(),
        forall|i: int|
            0 <= i < s.len() ==> spec_rank_key(s[i], cat) <= spec_rank_key(
                spec_rank_sort(s, cat).last(),
                cat,
            ),
        s.to_multiset().contains(spec_rank_sort(s, cat).last()),
{
    broadcast use vstd::seq_lib::group_to_multiset_ensures;

    lemma_rank_sort_permutes(s, cat);
    lemma_rank_sort_sorted(s, cat);
    let t = spec_rank_sort(s, cat);
    assert(t.to_multiset().contains(t.last()));
    assert forall|i: int| 0 <= i < s.len() implies spec_rank_key(s[i], cat) <= spec_rank_key(
        t.last(),
        cat,
    ) by {
        assert(s.to_multiset().contains(s[i]));
        assert(t.to_multiset().contains(s[i]));
        let j = t.index_of(s[i]);
        assert(0 <= j < t.len() && t[j] == s[i]);
    }
}

fn insert_ranked(out: &mut Vec<Flight>, x: Flight, cat: BotType)
    ensures
        final(out).deep_view() == spec_insert_ranked(old(out).deep_view(), x@, cat),
    decreases old(out).len(),
{
    let ghost orig = old(out).deep_view();
    if out.len() == 0 {
        out.push(x);
        proof {
            assert(out.deep_view() =~= spec_insert_ranked(orig, x@, cat));
        }
    } else {
        let last_key = rank_key(&out[out.len() - 1], cat);
        proof {
            assert(out.deep_view().last() == out@[out@.len() - 1].deep_view());
        }
        if last_key <= rank_key(&x, cat) {
            out.push(x);
            proof {
                assert(out.deep_view() =~= spec_insert_ranked(orig, x@, cat));
            }
        } else {
            let last = match out.pop() {
                Some(f) => f,
                None => unreached(),
            };
            proof {
                assert(out.deep_view() =~= orig.drop_last());
                assert(last.deep_view() == orig.last());
            }
            insert_ranked(out, x, cat);
            out.push(last);
            proof {
                assert(out.deep_view() =~= spec_insert_ranked(orig.drop_last(), x@, cat).push(
                    orig.last(),
                ));
            }
        }
    }
}

/// Sorts ascending by the category's metric, stably: the exact result is
/// [`spec_rank_sort`] of the input.
pub fn rank_sort(flights: Vec<Flight>, cat: BotType) -> (r: Vec<Flight>)
    ensures
        r.deep_view() == spec_rank_sort(flights.deep_view(), cat),
{
    let ghost orig = flights.deep_view();
    let mut rest = flights;
    let total = rest.len();
    let mut out: Vec<Flight> = Vec::new();
    proof {
        assert(out.deep_view() =~= spec_rank_sort(orig.take(0), cat));
        assert(rest.deep_view() =~= orig.skip(0));
    }
    let mut done: usize = 0;
    while rest.len() > 0
        invariant
            total == orig.len(),
            done + rest.len() == orig.len(),
            rest.deep_view() =~= orig.skip(done as int),
            out.deep_view() == spec_rank_sort(orig.take(done as int), cat),
        decreases rest.len(),
    {
        let ghost before = rest.deep_view();
        let x = rest.remove(0);
        proof {
            assert(x.deep_view() == before[0]);
            assert(x.deep_view() == orig[done as int]);
            assert(rest.deep_view() =~= before.drop_first());
            assert(rest.deep_view() =~= orig.skip(done as int + 1));
            let p = orig.take(done as int + 1);
            assert(p.drop_last() =~= orig.take(done as int));
            assert(p.last() == orig[done as int]);
        }
        insert_ranked(&mut out, x, cat);
        done = done + 1;
    }
    proof {
        assert(orig.take(done as int) =~= orig);
    }
    out
}

/// Keeps only the highest `n` flights of the ascending sort. The winner is
/// the last element of the result.
pub fn top_ranked(flights: Vec<Flight>, cat: BotType, n: usize) -> (r: Vec<Flight>)
    ensures
        r.deep_view() == spec_top_ranked(flights.deep_view(), cat, n as nat),
{
    let ghost orig = flights.deep_view();
    let mut sorted = rank_sort(flights, cat);
    let total = sorted.len();
    let ghost all = sorted.deep_view();
    let mut removed: usize = 0;
    while sorted.len() > n
        invariant
            total == all.len(),
            removed <= all.len(),
            all.len() - removed >= n || removed == 0,
            sorted.deep_view() =~= all.skip(removed as int),
        decreases sorted.len(),
    {
        let ghost before = sorted.deep_view();
        let _ = sorted.remove(0);
        proof {
            assert(sorted.deep_view() =~= before.drop_first());
            assert(all.skip(removed as int).drop_first() =~= all.skip(removed as int + 1));
        }
        removed = removed + 1;
    }
    proof {
        if all.len() <= n {
            assert(removed == 0);
            assert(sorted.deep_view() =~= all);
        } else {
            assert(sorted.deep_view().len() == all.len() - removed);
            assert(removed == all.len() - n);
            assert(sorted.deep_view() =~= all.skip(all.len() - n));
        }
    }
    sorted
}

} // verus!
