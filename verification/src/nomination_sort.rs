//! The order of the nominations of a validator: by a stable hash of the
//! nominator's account.
use crate::account::sort_key_of;
use crate::validator::{nomination_views, Nomination, NominationView};
use vstd::prelude::*;

verus! {

/// The key by which a nomination is ordered.
pub open spec fn nomination_key(nomination: NominationView) -> u64 {
    sort_key_of(nomination.nominator_account_id@)
}

/// Whether the keys of a list of nominations never decrease.
pub open spec fn sorted_by_key(nominations: Seq<NominationView>) -> bool {
    forall|i: int, j: int|
        0 <= i < j < nominations.len() ==> nomination_key(#[trigger] nominations[i])
            <= nomination_key(#[trigger] nominations[j])
}

/// Whether no two nominations of a list have the same key.
pub open spec fn distinct_keys(nominations: Seq<NominationView>) -> bool {
    forall|i: int, j: int|
        0 <= i < j < nominations.len() ==> nomination_key(#[trigger] nominations[i])
            != nomination_key(#[trigger] nominations[j])
}

/// Where a nomination of the given key goes in a list that is ordered by key:
/// in front of the first nomination, from `from` on, whose key is greater.
pub open spec fn place_of(ordered: Seq<NominationView>, key: u64, from: int) -> int
    decreases ordered.len() - from,
{
    if from < 0 || from >= ordered.len() || nomination_key(ordered[from]) > key {
        from
    } else {
        place_of(ordered, key, from + 1)
    }
}

/// The first `upto` nominations of a list in the order of their keys, those of
/// the same key in the order in which they came: each nomination in its turn is
/// put behind the ones whose key is not greater than its own.
pub open spec fn ordered(nominations: Seq<NominationView>, upto: int) -> Seq<NominationView>
    decreases upto,
{
    if upto <= 0 || upto > nominations.len() {
        Seq::empty()
    } else {
        let before = ordered(nominations, upto - 1);
        let nomination = nominations[upto - 1];
        before.insert(place_of(before, nomination_key(nomination), 0), nomination)
    }
}

/// Orders nominations by key. Nominations of equal key keep the order they came in.
pub fn sort_nominations(nominations: Vec<Nomination>) -> (sorted: Vec<Nomination>)
    ensures
        nomination_views(sorted@) == ordered(
            nomination_views(nominations@),
            nominations@.len() as int,
        ),
{
    let mut sorted: Vec<Nomination> = Vec::new();
    let mut keys: Vec<u64> = Vec::new();
    let ghost all = nominations@;
    let ghost all_views = nomination_views(nominations@);
    proof {
        assert(nomination_views(sorted@) =~= Seq::<NominationView>::empty());
    }
    for nomination in it: nominations
        invariant
            all == it.seq(),
            all_views == nomination_views(all),
            keys@.len() == sorted@.len(),
            forall|i: int| 0 <= i < sorted@.len() ==> keys@[i] == nomination_key(#[trigger] sorted@[i]@),
            nomination_views(sorted@) == ordered(all_views, it.index() as int),
    {
        let ghost done = it.index() as int;
        let ghost before_views = nomination_views(sorted@);
        let key = nomination.nominator_account_id.sort_key();
        let mut position: usize = 0;
        while position < keys.len() && keys[position] <= key
            invariant
                position <= keys@.len(),
                keys@.len() == sorted@.len(),
                before_views == nomination_views(sorted@),
                forall|i: int|
                    0 <= i < sorted@.len() ==> keys@[i] == nomination_key(#[trigger] sorted@[i]@),
                place_of(before_views, key, 0) == place_of(before_views, key, position as int),
            decreases keys@.len() - position,
        {
            assert(before_views[position as int] == sorted@[position as int]@);
            position += 1;
        }
        proof {
            if position < keys@.len() {
                assert(before_views[position as int] == sorted@[position as int]@);
            }
            assert(place_of(before_views, key, 0) == position);
        }
        let ghost view = nomination@;
        sorted.insert(position, nomination);
        keys.insert(position, key);
        proof {
            assert(all_views[done] == view);
            assert(nomination_views(sorted@) =~= before_views.insert(position as int, view));
        }
    }
    sorted
}

/// Where a nomination goes, there is a place: the keys in front of it are not
/// greater than its own, and the key at it, if there is one, is greater.
pub proof fn lemma_place_of(ordered: Seq<NominationView>, key: u64, from: int)
    requires
        0 <= from <= ordered.len(),
    ensures
        from <= place_of(ordered, key, from) <= ordered.len(),
        forall|i: int|
            from <= i < place_of(ordered, key, from) ==> nomination_key(#[trigger] ordered[i])
                <= key,
        place_of(ordered, key, from) < ordered.len() ==> nomination_key(
            ordered[place_of(ordered, key, from)],
        ) > key,
    decreases ordered.len() - from,
{
    if from < ordered.len() && nomination_key(ordered[from]) <= key {
        lemma_place_of(ordered, key, from + 1);
    }
}

/// What [`ordered`] gives is ordered by key, and holds the nominations it was
/// given, as many of each.
pub proof fn lemma_ordered(nominations: Seq<NominationView>, upto: int)
    requires
        0 <= upto <= nominations.len(),
    ensures
        ordered(nominations, upto).len() == upto,
        sorted_by_key(ordered(nominations, upto)),
        ordered(nominations, upto).to_multiset() == nominations.subrange(0, upto).to_multiset(),
    decreases upto,
{
    if upto == 0 {
        assert(nominations.subrange(0, 0) =~= Seq::<NominationView>::empty());
    } else {
        lemma_ordered(nominations, upto - 1);
        let before = ordered(nominations, upto - 1);
        let nomination = nominations[upto - 1];
        let key = nomination_key(nomination);
        let position = place_of(before, key, 0);
        lemma_place_of(before, key, 0);
        let after = before.insert(position, nomination);
        vstd::seq_lib::to_multiset_insert(before, position, nomination);
        assert(nominations.subrange(0, upto) =~= nominations.subrange(0, upto - 1).push(
            nomination,
        ));
        vstd::seq_lib::to_multiset_build(nominations.subrange(0, upto - 1), nomination);
        assert forall|i: int, j: int| 0 <= i < j < after.len() implies nomination_key(
            #[trigger] after[i],
        ) <= nomination_key(#[trigger] after[j]) by {
            if i == position {
                assert(after[j] == before[j - 1]);
                assert(nomination_key(before[position]) <= nomination_key(before[j - 1])) by {
                    if position < j - 1 {
                    }
                }
            } else if j == position {
                assert(after[i] == before[i]);
            } else if i < position && j < position {
                assert(after[i] == before[i]);
                assert(after[j] == before[j]);
            } else if i < position {
                assert(after[i] == before[i]);
                assert(after[j] == before[j - 1]);
            } else {
                assert(after[i] == before[i - 1]);
                assert(after[j] == before[j - 1]);
            }
        }
    }
}

} // verus!

verus! {

/// Two lists ordered by key that hold the same nominations, as many of each, are
/// the same list where no two of the nominations have the same key.
pub proof fn lemma_sorted_distinct_unique(x: Seq<NominationView>, y: Seq<NominationView>)
    requires
        sorted_by_key(x),
        sorted_by_key(y),
        distinct_keys(x),
        x.to_multiset() == y.to_multiset(),
    ensures
        x == y,
    decreases x.len(),
{
    broadcast use vstd::multiset::group_multiset_axioms;
    broadcast use vstd::seq_lib::group_to_multiset_ensures;

    assert(x.len() == y.len()) by {
        vstd::seq_lib::to_multiset_len(x);
        vstd::seq_lib::to_multiset_len(y);
    }
    if x.len() == 0 {
        assert(x =~= y);
    } else {
        assert(y.to_multiset().contains(y[0]));
        assert(x.to_multiset().contains(y[0]));
        let i = choose|i: int| #![trigger x.spec_index(i)] 0 <= i < x.len() && x[i] == y[0];
        assert(x.to_multiset().contains(x[0]));
        assert(y.to_multiset().contains(x[0]));
        let j = choose|j: int| #![trigger y.spec_index(j)] 0 <= j < y.len() && y[j] == x[0];
        assert(nomination_key(y[0]) <= nomination_key(y[j])) by {
            if j > 0 {
            }
        }
        assert(nomination_key(x[0]) <= nomination_key(x[i])) by {
            if i > 0 {
            }
        }
        assert(i == 0) by {
            if i > 0 {
                assert(nomination_key(x[0]) != nomination_key(x[i]));
            }
        }
        assert(x.drop_first().to_multiset() =~= x.to_multiset().remove(x[0])) by {
            vstd::seq_lib::to_multiset_remove(x, 0);
            assert(x.remove(0) =~= x.drop_first());
        }
        assert(y.drop_first().to_multiset() =~= y.to_multiset().remove(y[0])) by {
            vstd::seq_lib::to_multiset_remove(y, 0);
            assert(y.remove(0) =~= y.drop_first());
        }
        let xs = x.drop_first();
        let ys = y.drop_first();
        assert(sorted_by_key(xs)) by {
            assert forall|a: int, b: int| 0 <= a < b < xs.len() implies nomination_key(
                #[trigger] xs[a],
            ) <= nomination_key(#[trigger] xs[b]) by {
                assert(xs[a] == x[a + 1]);
                assert(xs[b] == x[b + 1]);
            }
        }
        assert(sorted_by_key(ys)) by {
            assert forall|a: int, b: int| 0 <= a < b < ys.len() implies nomination_key(
                #[trigger] ys[a],
            ) <= nomination_key(#[trigger] ys[b]) by {
                assert(ys[a] == y[a + 1]);
                assert(ys[b] == y[b + 1]);
            }
        }
        assert(distinct_keys(xs)) by {
            assert forall|a: int, b: int| 0 <= a < b < xs.len() implies nomination_key(
                #[trigger] xs[a],
            ) != nomination_key(#[trigger] xs[b]) by {
                assert(xs[a] == x[a + 1]);
                assert(xs[b] == x[b + 1]);
            }
        }
        lemma_sorted_distinct_unique(xs, ys);
        assert(x =~= seq![x[0]] + xs);
        assert(y =~= seq![y[0]] + ys);
    }
}

/// A value that a list holds at two places is held at two places by every list
/// with the same values, as many of each.
proof fn lemma_twice_in_both(a: Seq<NominationView>, b: Seq<NominationView>, i: int, j: int) -> (places: (
    int,
    int,
))
    requires
        a.to_multiset() == b.to_multiset(),
        0 <= i < j < b.len(),
        b[i] == b[j],
    ensures
        0 <= places.0 < places.1 < a.len(),
        a[places.0] == b[i],
        a[places.1] == b[i],
{
    broadcast use vstd::multiset::group_multiset_axioms;

    let v = b[i];
    vstd::seq_lib::to_multiset_remove(b, i);
    let shorter = b.remove(i);
    assert(shorter[j - 1] == v);
    assert(shorter.contains(v));
    vstd::seq_lib::to_multiset_contains(shorter, v);
    assert(b.to_multiset().count(v) >= 2);
    vstd::seq_lib::to_multiset_contains(a, v);
    let p = choose|p: int| 0 <= p < a.len() && a[p] == v;
    vstd::seq_lib::to_multiset_remove(a, p);
    let rest = a.remove(p);
    vstd::seq_lib::to_multiset_contains(rest, v);
    let q = choose|q: int| 0 <= q < rest.len() && rest[q] == v;
    if q < p {
        (q, p)
    } else {
        assert(a[q + 1] == v);
        (p, q + 1)
    }
}

/// No two nominations of a list have the same key where that holds of a list
/// with the same nominations, as many of each.
pub proof fn lemma_distinct_keys_kept(a: Seq<NominationView>, b: Seq<NominationView>)
    requires
        a.to_multiset() == b.to_multiset(),
        distinct_keys(a),
    ensures
        distinct_keys(b),
{
    broadcast use vstd::multiset::group_multiset_axioms;

    assert forall|i: int, j: int| 0 <= i < j < b.len() implies nomination_key(#[trigger] b[i])
        != nomination_key(#[trigger] b[j]) by {
        if nomination_key(b[i]) == nomination_key(b[j]) {
            if b[i] == b[j] {
                let places = lemma_twice_in_both(a, b, i, j);
                assert(nomination_key(a[places.0]) == nomination_key(a[places.1]));
            } else {
                assert(b.contains(b[i]));
                assert(b.contains(b[j]));
                vstd::seq_lib::to_multiset_contains(b, b[i]);
                vstd::seq_lib::to_multiset_contains(b, b[j]);
                vstd::seq_lib::to_multiset_contains(a, b[i]);
                vstd::seq_lib::to_multiset_contains(a, b[j]);
                let p = choose|p: int| 0 <= p < a.len() && a[p] == b[i];
                let q = choose|q: int| 0 <= q < a.len() && a[q] == b[j];
                assert(p != q);
                if p < q {
                    assert(nomination_key(a[p]) == nomination_key(a[q]));
                } else {
                    assert(nomination_key(a[q]) == nomination_key(a[p]));
                }
            }
        }
    }
}

/// The order of the nominations of a validator does not depend on the order in
/// which they arrive: where no two nominators have the same key, two arrivals of
/// the same nominations are put in the same order.
pub proof fn lemma_order_is_determined(first: Seq<NominationView>, second: Seq<NominationView>)
    requires
        first.to_multiset() == second.to_multiset(),
        distinct_keys(first),
    ensures
        ordered(first, first.len() as int) == ordered(second, second.len() as int),
{
    let sorted_first = ordered(first, first.len() as int);
    let sorted_second = ordered(second, second.len() as int);
    lemma_ordered(first, first.len() as int);
    lemma_ordered(second, second.len() as int);
    assert(first.subrange(0, first.len() as int) =~= first);
    assert(second.subrange(0, second.len() as int) =~= second);
    lemma_distinct_keys_kept(first, sorted_first);
    lemma_sorted_distinct_unique(sorted_first, sorted_second);
}

} // verus!
