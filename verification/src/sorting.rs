//! Stable ordering of buffered history events by creation time.
//!
//! The flushed display order is specified as `history_order`: ascending by
//! `created_at`, with arrival order preserved among equal timestamps.
use vstd::prelude::*;

use crate::event::RelayEvent;

verus! {

/// Where an event belongs among already ordered ones: after every event
/// whose creation time is not later than its own.
pub open spec fn stable_insert(s: Seq<RelayEvent>, e: RelayEvent) -> Seq<RelayEvent>
    decreases s.len(),
{
    if s.len() == 0 {
        seq![e]
    } else if s.last().created_at <= e.created_at {
        s.push(e)
    } else {
        stable_insert(s.drop_last(), e).push(s.last())
    }
}

/// The display order of a buffer of history events, in arrival order:
/// each event in turn is placed after every earlier-or-equal timestamp.
pub open spec fn history_order(s: Seq<RelayEvent>) -> Seq<RelayEvent>
    decreases s.len(),
{
    if s.len() == 0 {
        Seq::empty()
    } else {
        stable_insert(history_order(s.drop_last()), s.last())
    }
}

/// Non-decreasing by creation time.
pub open spec fn sorted_by_created_at(s: Seq<RelayEvent>) -> bool {
    forall|i: int, j: int| 0 <= i < j < s.len() ==> s[i].created_at <= s[j].created_at
}

/// The subsequence of events carrying one given timestamp, in order.
pub open spec fn events_at(s: Seq<RelayEvent>, t: u64) -> Seq<RelayEvent> {
    s.filter(|e: RelayEvent| e.created_at == t)
}

/// A stable insertion is an insertion: splitting at any position whose
/// right part is strictly later than the event and whose left part ends
/// not later than it gives the inserted sequence.
proof fn lemma_stable_insert_at(s: Seq<RelayEvent>, e: RelayEvent, i: int)
    requires
        0 <= i <= s.len(),
        forall|k: int| i <= k < s.len() ==> #[trigger] s[k].created_at > e.created_at,
        i > 0 ==> s[i - 1].created_at <= e.created_at,
    ensures
        stable_insert(s, e) == s.insert(i, e),
    decreases s.len(),
{
    if s.len() == 0 {
        assert(stable_insert(s, e) =~= s.insert(0, e));
    } else if s.last().created_at <= e.created_at {
        assert(i == s.len());
        assert(stable_insert(s, e) =~= s.insert(i, e));
    } else {
        assert(i < s.len());
        lemma_stable_insert_at(s.drop_last(), e, i);
        assert(stable_insert(s.drop_last(), e).push(s.last()) =~= s.insert(i, e));
    }
}

/// A stable insertion keeps every creation time within a bound that also
/// covers the inserted event.
proof fn lemma_stable_insert_bound(s: Seq<RelayEvent>, e: RelayEvent, b: u64)
    requires
        forall|k: int| 0 <= k < s.len() ==> #[trigger] s[k].created_at <= b,
        e.created_at <= b,
    ensures
        forall|k: int|
            0 <= k < stable_insert(s, e).len() ==> #[trigger] stable_insert(s, e)[k].created_at
                <= b,
    decreases s.len(),
{
    if s.len() == 0 {
    } else if s.last().created_at <= e.created_at {
    } else {
        assert(forall|k: int|
            0 <= k < s.drop_last().len() ==> #[trigger] s.drop_last()[k].created_at <= b);
        lemma_stable_insert_bound(s.drop_last(), e, b);
        let inner = stable_insert(s.drop_last(), e);
        let r = inner.push(s.last());
        assert forall|k: int| 0 <= k < r.len() implies #[trigger] r[k].created_at <= b by {
            if k < r.len() - 1 {
                assert(r[k] == inner[k]);
            } else {
                assert(r[k] == s.last());
                assert(s[s.len() - 1].created_at <= b);
            }
        }
    }
}

/// A stable insertion into an ordered sequence is ordered.
proof fn lemma_stable_insert_sorted(s: Seq<RelayEvent>, e: RelayEvent)
    requires
        sorted_by_created_at(s),
    ensures
        sorted_by_created_at(stable_insert(s, e)),
    decreases s.len(),
{
    if s.len() == 0 {
    } else if s.last().created_at <= e.created_at {
    } else {
        assert(sorted_by_created_at(s.drop_last()));
        lemma_stable_insert_sorted(s.drop_last(), e);
        lemma_stable_insert_bound(s.drop_last(), e, s.last().created_at);
        let r = stable_insert(s.drop_last(), e).push(s.last());
        assert forall|i: int, j: int| 0 <= i < j < r.len() implies r[i].created_at
            <= r[j].created_at by {
            if j < r.len() - 1 {
                assert(stable_insert(s.drop_last(), e)[i].created_at <= stable_insert(
                    s.drop_last(),
                    e,
                )[j].created_at);
            }
        }
    }
}

/// A stable insertion holds exactly the old events and the new one.
proof fn lemma_stable_insert_multiset(s: Seq<RelayEvent>, e: RelayEvent)
    ensures
        stable_insert(s, e).to_multiset() == s.to_multiset().insert(e),
    decreases s.len(),
{
    broadcast use vstd::seq_lib::group_to_multiset_ensures;

    if s.len() == 0 {
        assert(seq![e] =~= Seq::<RelayEvent>::empty().push(e));
        assert(Seq::<RelayEvent>::empty().push(e).to_multiset() =~= Seq::<
            RelayEvent,
        >::empty().to_multiset().insert(e));
    } else if s.last().created_at <= e.created_at {
    } else {
        lemma_stable_insert_multiset(s.drop_last(), e);
        assert(s.drop_last().push(s.last()) =~= s);
        assert(s.drop_last().to_multiset().insert(s.last()) =~= s.to_multiset()) by {
            assert(s.drop_last().push(s.last()).to_multiset() =~= s.drop_last().to_multiset()
                .insert(s.last()));
        }
        assert(stable_insert(s.drop_last(), e).push(s.last()).to_multiset() =~= stable_insert(
            s.drop_last(),
            e,
        ).to_multiset().insert(s.last()));
        assert(s.drop_last().to_multiset().insert(e).insert(s.last()) =~= s.to_multiset().insert(
            e,
        ));
    }
}

/// A stable insertion leaves the run of any timestamp unchanged, except
/// that the inserted event joins the end of its own run.
proof fn lemma_stable_insert_filter(s: Seq<RelayEvent>, e: RelayEvent, t: u64)
    ensures
        events_at(stable_insert(s, e), t) == if e.created_at == t {
            events_at(s, t).push(e)
        } else {
            events_at(s, t)
        },
    decreases s.len(),
{
    reveal(Seq::filter);
    let pred = |x: RelayEvent| x.created_at == t;
    if s.len() == 0 {
        assert(seq![e].drop_last() =~= Seq::<RelayEvent>::empty());
        assert(events_at(s, t) =~= Seq::<RelayEvent>::empty());
        if e.created_at == t {
            assert(pred(e));
            assert(seq![e].filter(pred) =~= events_at(s, t).push(e));
        } else {
            assert(!pred(e));
            assert(seq![e].filter(pred) =~= events_at(s, t));
        }
    } else if s.last().created_at <= e.created_at {
        assert(s.push(e).drop_last() =~= s);
        if e.created_at == t {
            assert(events_at(stable_insert(s, e), t) =~= events_at(s, t).push(e));
        }
    } else {
        lemma_stable_insert_filter(s.drop_last(), e, t);
        let r = stable_insert(s.drop_last(), e).push(s.last());
        assert(r.drop_last() =~= stable_insert(s.drop_last(), e));
        // s.last() cannot carry timestamp t's run position before e here:
        // its time is strictly later than e's, so when e joins run t the
        // last element stays outside that run.
        if e.created_at == t {
            assert(!pred(s.last()));
            assert(events_at(r, t) =~= events_at(s.drop_last(), t).push(e));
            assert(events_at(s, t) =~= events_at(s.drop_last(), t));
        } else {
            if pred(s.last()) {
                assert(events_at(r, t) =~= events_at(s.drop_last(), t).push(s.last()));
                assert(events_at(s, t) =~= events_at(s.drop_last(), t).push(s.last()));
            } else {
                assert(events_at(r, t) =~= events_at(s.drop_last(), t));
                assert(events_at(s, t) =~= events_at(s.drop_last(), t));
            }
        }
    }
}

/// Law: the display order of any buffer of history events is
/// non-decreasing by creation time, holds exactly the buffered events,
/// and preserves arrival order among events with equal timestamps.
pub proof fn lemma_history_order_correct(s: Seq<RelayEvent>)
    ensures
        sorted_by_created_at(history_order(s)),
        history_order(s).to_multiset() == s.to_multiset(),
        forall|t: u64| #[trigger] events_at(history_order(s), t) == events_at(s, t),
    decreases s.len(),
{
    broadcast use vstd::seq_lib::group_to_multiset_ensures;

    reveal(Seq::filter);
    if s.len() == 0 {
        assert forall|t: u64| #[trigger]
            events_at(history_order(s), t) == events_at(s, t) by {}
    } else {
        lemma_history_order_correct(s.drop_last());
        lemma_stable_insert_sorted(history_order(s.drop_last()), s.last());
        lemma_stable_insert_multiset(history_order(s.drop_last()), s.last());
        assert(s.drop_last().push(s.last()) =~= s);
        assert(s.drop_last().to_multiset().insert(s.last()) =~= s.to_multiset()) by {
            assert(s.drop_last().push(s.last()).to_multiset() =~= s.drop_last().to_multiset()
                .insert(s.last()));
        }
        assert forall|t: u64| #[trigger]
            events_at(history_order(s), t) == events_at(s, t) by {
            lemma_stable_insert_filter(history_order(s.drop_last()), s.last(), t);
            let pred = |x: RelayEvent| x.created_at == t;
            if pred(s.last()) {
                assert(events_at(s, t) =~= events_at(s.drop_last(), t).push(s.last()));
            } else {
                assert(events_at(s, t) =~= events_at(s.drop_last(), t));
            }
        }
    }
}

/// Places one event into an already built display order.
fn insert_event(r: &mut Vec<RelayEvent>, e: RelayEvent)
    ensures
        final(r)@ == stable_insert(old(r)@, e),
{
    let mut i: usize = r.len();
    while i > 0 && r[i - 1].created_at > e.created_at
        invariant
            i <= r@.len(),
            forall|k: int| i <= k < r@.len() ==> #[trigger] r@[k].created_at > e.created_at,
        decreases i,
    {
        i = i - 1;
    }
    proof {
        lemma_stable_insert_at(r@, e, i as int);
    }
    r.insert(i, e);
}

/// Produces the display order of a buffer of history events.
pub fn sort_history(v: Vec<RelayEvent>) -> (r: Vec<RelayEvent>)
    ensures
        r@ == history_order(v@),
{
    let ghost orig = v@;
    let mut v = v;
    let mut r: Vec<RelayEvent> = Vec::new();
    let ghost mut done: int = 0;
    while v.len() > 0
        invariant
            0 <= done <= orig.len(),
            v@ =~= orig.skip(done),
            r@ == history_order(orig.take(done)),
        decreases v@.len(),
    {
        let e = v.remove(0);
        proof {
            assert(orig.skip(done).remove(0) =~= orig.skip(done + 1));
            assert(orig.take(done + 1).drop_last() =~= orig.take(done));
            assert(orig.take(done + 1).last() == orig[done]);
            assert(e == orig[done]);
        }
        insert_event(&mut r, e);
        proof {
            done = done + 1;
        }
    }
    proof {
        assert(orig.take(done) =~= orig);
    }
    r
}

} // verus!
