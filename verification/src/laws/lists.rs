//! Lists that are picked out of other lists, in their order.

use vstd::prelude::*;

use crate::fresh::without_hyphens;
use crate::handlers::providers::enabled_records;
use crate::models::TwoFactorView;

verus! {

/// Whether `to` is what `pick` makes of the elements of `from` at `places`: one element for
/// each of them, in the same order, and nothing at any other place is picked.
pub open spec fn picks<A, B>(
    places: Seq<int>,
    from: Seq<A>,
    pick: spec_fn(A) -> Option<B>,
    to: Seq<B>,
) -> bool {
    &&& places.len() == to.len()
    &&& forall|a: int, b: int|
        0 <= a < b < places.len() ==> #[trigger] places[a] < #[trigger] places[b]
    &&& forall|a: int|
        0 <= a < places.len() ==> 0 <= #[trigger] places[a] < from.len() && pick(from[places[a]])
            == Some(to[a])
    &&& forall|i: int|
        0 <= i < from.len() && pick(#[trigger] from[i]) is Some ==> places.contains(i)
}

/// Whether `to` is what `pick` makes of the elements of `from`, in their order.
pub open spec fn is_picked<A, B>(from: Seq<A>, pick: spec_fn(A) -> Option<B>, to: Seq<B>) -> bool {
    exists|places: Seq<int>| picks(places, from, pick, to)
}

/// Nothing is picked out of nothing.
pub proof fn picked_of_none<A, B>(pick: spec_fn(A) -> Option<B>)
    ensures
        is_picked(Seq::empty(), pick, Seq::<B>::empty()),
{
    assert(picks(Seq::empty(), Seq::empty(), pick, Seq::<B>::empty()));
}

/// One more element adds at the end what is picked of it.
pub proof fn picked_of_one_more<A, B>(
    from: Seq<A>,
    pick: spec_fn(A) -> Option<B>,
    to: Seq<B>,
    last: A,
)
    requires
        is_picked(from, pick, to),
    ensures
        is_picked(
            from.push(last),
            pick,
            match pick(last) {
                Some(b) => to.push(b),
                None => to,
            },
        ),
{
    let places = choose|places: Seq<int>| picks(places, from, pick, to);
    let n = from.len() as int;
    let more = from.push(last);
    if let Some(b) = pick(last) {
        let longer = places.push(n);
        let picked = to.push(b);
        assert forall|a: int| 0 <= a < longer.len() implies 0 <= #[trigger] longer[a] < more.len()
            && pick(more[longer[a]]) == Some(picked[a]) by {
            if a < places.len() {
                assert(longer[a] == places[a]);
                assert(more[longer[a]] == from[places[a]]);
            }
        }
        assert forall|a: int, b: int| 0 <= a < b < longer.len() implies #[trigger] longer[a]
            < #[trigger] longer[b] by {
            assert(longer[a] == places[a]);
            if b < places.len() {
                assert(longer[b] == places[b]);
            }
        }
        assert forall|i: int|
            0 <= i < more.len() && pick(#[trigger] more[i]) is Some implies longer.contains(i) by {
            if i == n {
                assert(longer[places.len() as int] == n);
            } else {
                assert(more[i] == from[i]);
                let a = choose|a: int| 0 <= a < places.len() && places[a] == i;
                assert(longer[a] == i);
            }
        }
        assert(picks(longer, more, pick, picked));
    } else {
        assert forall|a: int| 0 <= a < places.len() implies 0 <= #[trigger] places[a] < more.len()
            && pick(more[places[a]]) == Some(to[a]) by {
            assert(more[places[a]] == from[places[a]]);
        }
        assert forall|i: int|
            0 <= i < more.len() && pick(#[trigger] more[i]) is Some implies places.contains(i) by {
            if i < n {
                assert(more[i] == from[i]);
            }
        }
        assert(picks(places, more, pick, to));
    }
}

/// What is picked is settled by what it is picked from.
pub proof fn picked_in_one_way<A, B>(
    from: Seq<A>,
    pick: spec_fn(A) -> Option<B>,
    to: Seq<B>,
    other: Seq<B>,
)
    requires
        is_picked(from, pick, to),
        is_picked(from, pick, other),
    ensures
        to == other,
{
    let p = choose|places: Seq<int>| picks(places, from, pick, to);
    let q = choose|places: Seq<int>| picks(places, from, pick, other);
    same_places(from, pick, to, other, p, q, p.len());
    same_places(from, pick, other, to, q, p, q.len());
    assert forall|a: int| 0 <= a < to.len() implies to[a] == other[a] by {
        assert(p[a] == q[a]);
    }
    assert(to =~= other);
}

/// The first `n` places of two picks are the same.
proof fn same_places<A, B>(
    from: Seq<A>,
    pick: spec_fn(A) -> Option<B>,
    to: Seq<B>,
    other: Seq<B>,
    p: Seq<int>,
    q: Seq<int>,
    n: nat,
)
    requires
        picks(p, from, pick, to),
        picks(q, from, pick, other),
        n <= p.len(),
    ensures
        n <= q.len(),
        forall|a: int| 0 <= a < n ==> #[trigger] p[a] == q[a],
    decreases n,
{
    if n > 0 {
        let m = n - 1;
        same_places(from, pick, to, other, p, q, m as nat);
        assert(pick(from[p[m]]) is Some);
        assert(q.contains(p[m]));
        let b = choose|b: int| 0 <= b < q.len() && q[b] == p[m];
        if b < m {
            assert(p[b] == q[b]);
            assert(p[b] < p[m]);
        }
        assert(m < q.len());
        assert(pick(from[q[m]]) is Some);
        assert(p.contains(q[m]));
        let a = choose|a: int| 0 <= a < p.len() && p[a] == q[m];
        if a < m {
            assert(p[a] == q[a]);
            assert(q[a] < q[m]);
        }
        if b > m {
            assert(q[m] < q[b]);
        }
        if a > m {
            assert(p[m] < p[a]);
        }
    }
}

/// The enabled records of a list are those of its records that are enabled, each as often
/// and in the order in which it stands there.
pub proof fn enabled_records_keep_their_order(records: Seq<TwoFactorView>)
    ensures
        is_picked(
            records,
            |r: TwoFactorView|
                if r.enabled {
                    Some(r)
                } else {
                    None
                },
            enabled_records(records),
        ),
    decreases records.len(),
{
    let pick = |r: TwoFactorView|
        if r.enabled {
            Some(r)
        } else {
            None
        };
    reveal(Seq::filter);
    if records.len() == 0 {
        picked_of_none::<TwoFactorView, TwoFactorView>(pick);
        assert(records =~= Seq::empty());
        assert(enabled_records(records) =~= Seq::empty());
    } else {
        let before = records.drop_last();
        enabled_records_keep_their_order(before);
        picked_of_one_more(before, pick, enabled_records(before), records.last());
        assert(before.push(records.last()) =~= records);
    }
}

/// A text without its hyphens is made of its other characters, in their order.
pub proof fn hyphens_are_left_out(s: Seq<char>)
    ensures
        is_picked(
            s,
            |c: char|
                if c != '-' {
                    Some(c)
                } else {
                    None
                },
            without_hyphens(s),
        ),
    decreases s.len(),
{
    let pick = |c: char|
        if c != '-' {
            Some(c)
        } else {
            None
        };
    if s.len() == 0 {
        picked_of_none::<char, char>(pick);
        assert(s =~= Seq::empty());
    } else {
        let before = s.drop_last();
        hyphens_are_left_out(before);
        picked_of_one_more(before, pick, without_hyphens(before), s.last());
        assert(before.push(s.last()) =~= s);
    }
}

} // verus!
