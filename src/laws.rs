use crate::state::{fresh, poll_answer, poll_step, publish_step, SharedView};
use std::task::Waker;
use vstd::prelude::*;

verus! {

/// The record after the queries `events` are made on `s` in order, each a waiter id and
/// the waker it hands in.
pub open spec fn after_polls<T>(s: SharedView<T>, events: Seq<(u64, Waker)>) -> SharedView<T>
    decreases events.len(),
{
    if events.len() == 0 {
        s
    } else {
        let e = events.last();
        poll_step(after_polls(s, events.drop_last()), e.0, e.1)
    }
}

/// The ids of the waiters that made the queries `events`.
pub open spec fn querying_ids(events: Seq<(u64, Waker)>) -> Set<u64> {
    Set::new(|id: u64| exists|i: int| 0 <= i < events.len() && events[i].0 == id)
}

/// The ids that `n` successive calls hand out when `start` ids were handed out before.
pub open spec fn issued_ids(start: int, n: nat) -> Seq<int> {
    Seq::new(n, |i: int| start + i + 1)
}

/// Queries made before any publish leave the value unpublished and register exactly the
/// ids that queried.
proof fn lemma_pending_queries<T>(events: Seq<(u64, Waker)>)
    ensures
        after_polls(fresh::<T>(), events).value is None,
        after_polls(fresh::<T>(), events).waiters.dom() == querying_ids(events),
    decreases events.len(),
{
    if events.len() > 0 {
        let rest = events.drop_last();
        lemma_pending_queries::<T>(rest);
        assert(querying_ids(events) =~= querying_ids(rest).insert(events.last().0)) by {
            assert forall|id: u64| querying_ids(events).contains(id) implies
                querying_ids(rest).insert(events.last().0).contains(id) by {
                let i = choose|i: int| 0 <= i < events.len() && events[i].0 == id;
                if i < events.len() - 1 {
                    assert(rest[i].0 == id);
                }
            }
            assert forall|id: u64| querying_ids(rest).contains(id) implies
                querying_ids(events).contains(id) by {
                let i = choose|i: int| 0 <= i < rest.len() && rest[i].0 == id;
                assert(events[i].0 == id);
            }
            assert(events[events.len() - 1].0 == events.last().0);
        }
    } else {
        assert(querying_ids(events) =~= Set::empty());
    }
}

/// Before the value `v` is published, the waiter table (which publishing hands back to be
/// woken) holds one entry for each waiter that queried and no other; afterwards nobody is
/// registered, and every waiter's next query yields a copy of `v` without registering.
pub proof fn lemma_publish_reaches_every_waiter<T: Clone>(events: Seq<(u64, Waker)>, v: T)
    ensures
        ({
            let before = after_polls(fresh::<T>(), events);
            let after = publish_step(before, v);
            &&& before.value is None
            &&& before.waiters.dom() == querying_ids(events)
            &&& after.value == Some(v)
            &&& after.waiters.is_empty()
            &&& forall|id: u64, w: Waker| #[trigger] poll_step(after, id, w) == after
            &&& forall|r: Option<T>| #[trigger]
                poll_answer(after, r) <==> (r matches Some(x) && cloned(v, x))
        }),
{
    lemma_pending_queries::<T>(events);
}

/// A waiter that first queries after a publish gets the published value at once and is
/// never registered: a copy of `v` when `v` was the first value published.
pub proof fn lemma_late_waiter<T: Clone>(s: SharedView<T>, v: T, id: u64, w: Waker)
    ensures
        ({
            let after = publish_step(s, v);
            &&& after.value is Some
            &&& poll_step(after, id, w) == after
            &&& forall|r: Option<T>| #[trigger] poll_answer(after, r) ==> r is Some
            &&& s.value is None ==> forall|r: Option<T>| #[trigger]
                poll_answer(after, r) <==> (r matches Some(x) && cloned(v, x))
        }),
{
}

/// Successive calls hand out pairwise distinct ids, each above every id handed out before.
pub proof fn lemma_issued_ids_distinct(start: int, n: nat)
    ensures
        forall|i: int, j: int|
            0 <= i < n && 0 <= j < n && i != j ==> issued_ids(start, n)[i] != issued_ids(
                start,
                n,
            )[j],
        forall|i: int| 0 <= i < n ==> issued_ids(start, n)[i] > start,
{
}

/// However often one waiter queries before the value is published, the table holds a
/// single entry for it, with the waker of its latest query, and the other entries stay.
pub proof fn lemma_repeated_query_one_entry<T>(s: SharedView<T>, id: u64, wakers: Seq<Waker>)
    requires
        s.value is None,
        wakers.len() > 0,
    ensures
        after_polls(s, wakers.map_values(|w: Waker| (id, w))).waiters == s.waiters.insert(
            id,
            wakers.last(),
        ),
    decreases wakers.len(),
{
    let events = wakers.map_values(|w: Waker| (id, w));
    assert(events.last() == (id, wakers.last()));
    if wakers.len() > 1 {
        let rest = wakers.drop_last();
        lemma_repeated_query_one_entry(s, id, rest);
        assert(events.drop_last() =~= rest.map_values(|w: Waker| (id, w)));
        lemma_value_kept(s, rest.map_values(|w: Waker| (id, w)));
        assert(s.waiters.insert(id, rest.last()).insert(id, wakers.last()) =~= s.waiters.insert(
            id,
            wakers.last(),
        ));
    } else {
        assert(events.drop_last() =~= Seq::<(u64, Waker)>::empty());
        assert(after_polls(s, events.drop_last()) == s);
    }
}

/// Queries never publish: the value after them is the value before.
proof fn lemma_value_kept<T>(s: SharedView<T>, events: Seq<(u64, Waker)>)
    ensures
        after_polls(s, events).value == s.value,
    decreases events.len(),
{
    if events.len() > 0 {
        lemma_value_kept(s, events.drop_last());
    }
}

/// Before any publish, no query of any waiter reports the value as ready.
pub proof fn lemma_no_ready_before_publish<T: Clone>(events: Seq<(u64, Waker)>)
    ensures
        forall|k: int, r: Option<T>|
            0 <= k <= events.len() && #[trigger] poll_answer(
                after_polls(fresh::<T>(), events.take(k)),
                r,
            ) ==> r is None,
{
    assert forall|k: int, r: Option<T>|
        0 <= k <= events.len() && #[trigger] poll_answer(
            after_polls(fresh::<T>(), events.take(k)),
            r,
        ) implies r is None by {
        lemma_value_kept(fresh::<T>(), events.take(k));
    }
}

/// A second publish is ignored: the first value stays and the record does not change.
pub proof fn lemma_first_publish_wins<T>(s: SharedView<T>, v1: T, v2: T)
    requires
        s.value is None,
    ensures
        publish_step(publish_step(s, v1), v2) == publish_step(s, v1),
        publish_step(publish_step(s, v1), v2).value == Some(v1),
{
}

} // verus!
