//! Laws of reconciliation, stated over the contract of `Reconciler::tick`.
use vstd::prelude::*;
use crate::address::IpAddress;
use crate::reconcile::{Plan, Reconciler, insert_keys, is_delta};

verus! {

/// One event as the endpoint pool receives it.
pub enum PoolEvent {
    Insert(IpAddress),
    Remove(IpAddress),
}

/// The events of one tick in the order the loop sends them: the inserts,
/// then the removes.
pub open spec fn tick_events(inserts: Seq<IpAddress>, removes: Seq<IpAddress>) -> Seq<PoolEvent> {
    inserts.map_values(|k: IpAddress| PoolEvent::Insert(k)) + removes.map_values(
        |k: IpAddress| PoolEvent::Remove(k),
    )
}

/// The keys installed in the pool after `events`, from `installed`.
pub open spec fn installed_after(installed: Set<IpAddress>, events: Seq<PoolEvent>) -> Set<
    IpAddress,
>
    decreases events.len(),
{
    if events.len() == 0 {
        installed
    } else {
        let before = installed_after(installed, events.drop_last());
        match events.last() {
            PoolEvent::Insert(k) => before.insert(k),
            PoolEvent::Remove(k) => before.remove(k),
        }
    }
}

/// No event of `events` inserts a key that is installed at that point: no key
/// gets two inserts without a remove between them.
pub open spec fn never_inserted_twice(installed: Set<IpAddress>, events: Seq<PoolEvent>) -> bool {
    forall|i: int|
        0 <= i < events.len() ==> (#[trigger] events[i] matches PoolEvent::Insert(k)
            ==> !installed_after(installed, events.take(i)).contains(k))
}

/// Every remove of `events` takes out a key that is installed at that point.
pub open spec fn never_removed_absent(installed: Set<IpAddress>, events: Seq<PoolEvent>) -> bool {
    forall|i: int|
        0 <= i < events.len() ==> (#[trigger] events[i] matches PoolEvent::Remove(k)
            ==> installed_after(installed, events.take(i)).contains(k))
}

/// After a successful tick the known keys are the keys known before, plus the
/// inserted ones, less the removed ones; and that is exactly the resolved set.
pub proof fn lemma_delta_reaches_resolved(
    old: Set<IpAddress>,
    new: Set<IpAddress>,
    inserts: Seq<IpAddress>,
    removes: Seq<IpAddress>,
)
    requires
        is_delta(inserts, removes, old, new),
    ensures
        old.union(inserts.to_set()).difference(removes.to_set()) == new,
{
    assert(old.union(inserts.to_set()).difference(removes.to_set()) =~= new);
}

/// Resolving the same set of addresses on two ticks in a row sends nothing on
/// the second: after the first tick the known keys are that set, so the
/// second tick has no key to insert or remove.
pub proof fn lemma_same_set_is_quiet(
    first: Seq<IpAddress>,
    second: Seq<IpAddress>,
    inserts: Seq<IpAddress>,
    removes: Seq<IpAddress>,
)
    requires
        first.to_set() == second.to_set(),
        is_delta(inserts, removes, first.to_set(), second.to_set()),
    ensures
        inserts.len() == 0,
        removes.len() == 0,
{
    if inserts.len() > 0 {
        assert(inserts.to_set().contains(inserts[0]));
    }
    if removes.len() > 0 {
        assert(removes.to_set().contains(removes[0]));
    }
}

proof fn lemma_installed_step(installed: Set<IpAddress>, events: Seq<PoolEvent>, j: int)
    requires
        0 <= j < events.len(),
    ensures
        installed_after(installed, events.take(j + 1)) == match events[j] {
            PoolEvent::Insert(k) => installed_after(installed, events.take(j)).insert(k),
            PoolEvent::Remove(k) => installed_after(installed, events.take(j)).remove(k),
        },
{
    assert(events.take(j + 1).drop_last() =~= events.take(j));
}

/// What is installed after the first `j` events of a tick.
spec fn installed_within_tick(
    old: Set<IpAddress>,
    inserts: Seq<IpAddress>,
    removes: Seq<IpAddress>,
    j: int,
) -> Set<IpAddress> {
    if j <= inserts.len() {
        old.union(inserts.take(j).to_set())
    } else {
        old.union(inserts.to_set()).difference(removes.take(j - inserts.len()).to_set())
    }
}

proof fn lemma_tick_prefix(
    old: Set<IpAddress>,
    inserts: Seq<IpAddress>,
    removes: Seq<IpAddress>,
    j: int,
)
    requires
        0 <= j <= inserts.len() + removes.len(),
    ensures
        installed_after(old, tick_events(inserts, removes).take(j)) == installed_within_tick(
            old,
            inserts,
            removes,
            j,
        ),
    decreases j,
{
    let events = tick_events(inserts, removes);
    let n = inserts.len() as int;
    if j == 0 {
        assert(events.take(0) =~= Seq::<PoolEvent>::empty());
        assert(inserts.take(0).to_set() =~= Set::<IpAddress>::empty());
        assert(old.union(Set::<IpAddress>::empty()) =~= old);
    } else {
        lemma_tick_prefix(old, inserts, removes, j - 1);
        lemma_installed_step(old, events, j - 1);
        let prev = installed_within_tick(old, inserts, removes, j - 1);
        if j <= n {
            assert(events[j - 1] == PoolEvent::Insert(inserts[j - 1]));
            assert(inserts.take(j) =~= inserts.take(j - 1).push(inserts[j - 1]));
            inserts.take(j - 1).lemma_push_to_set_commute(inserts[j - 1]);
            assert(prev.insert(inserts[j - 1]) =~= installed_within_tick(old, inserts, removes, j));
        } else {
            let r = j - 1 - n;
            assert(events[j - 1] == PoolEvent::Remove(removes[r]));
            assert(removes.take(r + 1) =~= removes.take(r).push(removes[r]));
            removes.take(r).lemma_push_to_set_commute(removes[r]);
            if r == 0 {
                assert(inserts.take(n) =~= inserts);
                assert(removes.take(0).to_set() =~= Set::<IpAddress>::empty());
                assert(prev =~= old.union(inserts.to_set()).difference(removes.take(0).to_set()));
            }
            assert(prev.remove(removes[r]) =~= installed_within_tick(old, inserts, removes, j));
        }
    }
}

/// A tick never inserts a key that is installed: each inserted key is new to
/// the pool and inserted once, and the pool ends with exactly the resolved
/// keys. As every tick starts from the keys the previous one left, no key of
/// the whole event stream gets two inserts without a remove between them,
/// also when the loop stops partway through a tick.
pub proof fn lemma_tick_never_inserts_twice(
    old: Set<IpAddress>,
    new: Set<IpAddress>,
    inserts: Seq<IpAddress>,
    removes: Seq<IpAddress>,
)
    requires
        is_delta(inserts, removes, old, new),
    ensures
        never_inserted_twice(old, tick_events(inserts, removes)),
        never_removed_absent(old, tick_events(inserts, removes)),
        installed_after(old, tick_events(inserts, removes)) == new,
{
    let events = tick_events(inserts, removes);
    let n = inserts.len() as int;
    assert forall|i: int| 0 <= i < events.len() implies (#[trigger] events[i] matches PoolEvent::Insert(
        k,
    ) ==> !installed_after(old, events.take(i)).contains(k)) by {
        if i < n {
            let k = inserts[i];
            assert(events[i] == PoolEvent::Insert(k));
            lemma_tick_prefix(old, inserts, removes, i);
            assert(inserts.to_set().contains(k));
            assert(!old.contains(k));
            if inserts.take(i).to_set().contains(k) {
                let t = choose|t: int| 0 <= t < i && inserts.take(i)[t] == k;
                assert(inserts[t] == inserts[i]);
            }
        } else {
            assert(events[i] == PoolEvent::Remove(removes[i - n]));
        }
    }
    assert forall|i: int| 0 <= i < events.len() implies (#[trigger] events[i] matches PoolEvent::Remove(
        k,
    ) ==> installed_after(old, events.take(i)).contains(k)) by {
        if i >= n {
            let r = i - n;
            let k = removes[r];
            assert(events[i] == PoolEvent::Remove(k));
            lemma_tick_prefix(old, inserts, removes, i);
            assert(removes.to_set().contains(k));
            assert(old.contains(k));
            if r == 0 {
                assert(inserts.take(n) =~= inserts);
            } else {
                if removes.take(r).to_set().contains(k) {
                    let t = choose|t: int| 0 <= t < r && removes.take(r)[t] == k;
                    assert(removes[t] == removes[r]);
                }
            }
        } else {
            assert(events[i] == PoolEvent::Insert(inserts[i]));
        }
    }
    lemma_tick_prefix(old, inserts, removes, events.len() as int);
    assert(events.take(events.len() as int) =~= events);
    assert(removes.take(removes.len() as int) =~= removes);
    assert(inserts.take(n) =~= inserts);
    lemma_delta_reaches_resolved(old, new, inserts, removes);
    if removes.len() == 0 {
        assert(removes.to_set() =~= Set::<IpAddress>::empty());
        assert(old.union(inserts.to_set()).difference(removes.to_set()) =~= old.union(
            inserts.to_set(),
        ));
    }
}

/// The events of a run of ticks, tick after tick.
pub open spec fn run_events(inserts: Seq<Seq<IpAddress>>, removes: Seq<Seq<IpAddress>>) -> Seq<
    PoolEvent,
>
    decreases inserts.len(),
{
    if inserts.len() == 0 || removes.len() == 0 {
        Seq::empty()
    } else {
        run_events(inserts.drop_last(), removes.drop_last()) + tick_events(
            inserts.last(),
            removes.last(),
        )
    }
}

proof fn lemma_installed_append(installed: Set<IpAddress>, a: Seq<PoolEvent>, b: Seq<PoolEvent>)
    ensures
        installed_after(installed, a + b) == installed_after(installed_after(installed, a), b),
    decreases b.len(),
{
    if b.len() == 0 {
        assert(a + b =~= a);
    } else {
        lemma_installed_append(installed, a, b.drop_last());
        assert((a + b).drop_last() =~= a + b.drop_last());
        assert((a + b).last() == b.last());
    }
}

proof fn lemma_never_twice_append(installed: Set<IpAddress>, a: Seq<PoolEvent>, b: Seq<PoolEvent>)
    requires
        never_inserted_twice(installed, a),
        never_inserted_twice(installed_after(installed, a), b),
    ensures
        never_inserted_twice(installed, a + b),
{
    let ab = a + b;
    assert forall|i: int| 0 <= i < ab.len() implies (#[trigger] ab[i] matches PoolEvent::Insert(k)
        ==> !installed_after(installed, ab.take(i)).contains(k)) by {
        if i < a.len() {
            assert(ab[i] == a[i]);
            assert(ab.take(i) =~= a.take(i));
        } else {
            let j = i - a.len();
            assert(ab[i] == b[j]);
            assert(ab.take(i) =~= a + b.take(j));
            lemma_installed_append(installed, a, b.take(j));
        }
    }
}

proof fn lemma_never_absent_append(installed: Set<IpAddress>, a: Seq<PoolEvent>, b: Seq<PoolEvent>)
    requires
        never_removed_absent(installed, a),
        never_removed_absent(installed_after(installed, a), b),
    ensures
        never_removed_absent(installed, a + b),
{
    let ab = a + b;
    assert forall|i: int| 0 <= i < ab.len() implies (#[trigger] ab[i] matches PoolEvent::Remove(k)
        ==> installed_after(installed, ab.take(i)).contains(k)) by {
        if i < a.len() {
            assert(ab[i] == a[i]);
            assert(ab.take(i) =~= a.take(i));
        } else {
            let j = i - a.len();
            assert(ab[i] == b[j]);
            assert(ab.take(i) =~= a + b.take(j));
            lemma_installed_append(installed, a, b.take(j));
        }
    }
}

/// Over any run of ticks, each starting from the keys the previous one left
/// (a failed resolution is a tick with no event that keeps the keys), no key
/// of the whole event stream gets two inserts without a remove between them,
/// no key is removed while it is not installed, and the pool ends with the
/// keys of the last tick.
pub proof fn lemma_run_never_inserts_twice(
    keys: Seq<Set<IpAddress>>,
    inserts: Seq<Seq<IpAddress>>,
    removes: Seq<Seq<IpAddress>>,
)
    requires
        inserts.len() == removes.len(),
        keys.len() == inserts.len() + 1,
        forall|t: int|
            0 <= t < inserts.len() ==> is_delta(
                #[trigger] inserts[t],
                removes[t],
                keys[t],
                keys[t + 1],
            ),
    ensures
        never_inserted_twice(keys[0], run_events(inserts, removes)),
        never_removed_absent(keys[0], run_events(inserts, removes)),
        installed_after(keys[0], run_events(inserts, removes)) == keys.last(),
    decreases inserts.len(),
{
    if inserts.len() == 0 {
        assert(run_events(inserts, removes) =~= Seq::<PoolEvent>::empty());
    } else {
        let n = inserts.len() - 1;
        let earlier = run_events(inserts.drop_last(), removes.drop_last());
        assert forall|t: int| 0 <= t < inserts.drop_last().len() implies is_delta(
            #[trigger] inserts.drop_last()[t],
            removes.drop_last()[t],
            keys.drop_last()[t],
            keys.drop_last()[t + 1],
        ) by {
            assert(is_delta(inserts[t], removes[t], keys[t], keys[t + 1]));
        }
        lemma_run_never_inserts_twice(keys.drop_last(), inserts.drop_last(), removes.drop_last());
        assert(is_delta(inserts[n], removes[n], keys[n], keys[n + 1]));
        lemma_tick_never_inserts_twice(keys[n], keys[n + 1], inserts[n], removes[n]);
        lemma_never_twice_append(keys[0], earlier, tick_events(inserts.last(), removes.last()));
        lemma_never_absent_append(keys[0], earlier, tick_events(inserts.last(), removes.last()));
        lemma_installed_append(keys[0], earlier, tick_events(inserts.last(), removes.last()));
    }
}

/// The events that a run of plans sends, plan after plan.
pub open spec fn plan_events(plans: Seq<Plan>) -> Seq<PoolEvent> {
    run_events(
        plans.map_values(|p: Plan| insert_keys(p.inserts@)),
        plans.map_values(|p: Plan| p.removes@),
    )
}

/// For a run of a reconciler, where `plans[t]` is what `tick` or
/// `sink_closed` returned in state `states[t]`, leaving `states[t + 1]`, the
/// events sent for each key alternate: no key gets two inserts without a
/// remove between them, and no key is removed while it is not installed.
/// From a new reconciler (no key known), each key's events thus go insert,
/// remove, insert, and so on, whatever the resolver returned. The pool ends
/// with the reconciler's known keys.
pub proof fn lemma_reconciler_events_alternate(states: Seq<Reconciler>, plans: Seq<Plan>)
    requires
        states.len() == plans.len() + 1,
        forall|t: int|
            0 <= t < plans.len() ==> is_delta(
                insert_keys(#[trigger] plans[t].inserts@),
                plans[t].removes@,
                states[t].known_set(),
                states[t + 1].known_set(),
            ),
    ensures
        never_inserted_twice(states[0].known_set(), plan_events(plans)),
        never_removed_absent(states[0].known_set(), plan_events(plans)),
        installed_after(states[0].known_set(), plan_events(plans)) == states.last().known_set(),
{
    let keys = states.map_values(|r: Reconciler| r.known_set());
    let inserts = plans.map_values(|p: Plan| insert_keys(p.inserts@));
    let removes = plans.map_values(|p: Plan| p.removes@);
    assert forall|t: int| 0 <= t < inserts.len() implies is_delta(
        #[trigger] inserts[t],
        removes[t],
        keys[t],
        keys[t + 1],
    ) by {
        assert(is_delta(
            insert_keys(plans[t].inserts@),
            plans[t].removes@,
            states[t].known_set(),
            states[t + 1].known_set(),
        ));
    }
    lemma_run_never_inserts_twice(keys, inserts, removes);
}

} // verus!
