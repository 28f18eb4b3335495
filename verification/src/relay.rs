//! Which devices are live after a run of events: the rule that every cache
//! of devices in this library follows.

use vstd::prelude::*;

verus! {

/// What an event means for the set of live devices.
pub ghost enum Presence {
    /// The device is there: it connected, or it was paired.
    Announce(Seq<char>),
    /// The device is gone.
    Withdraw(Seq<char>),
    /// The event says nothing about which devices are there.
    Other,
}

/// The live devices after one event.
pub open spec fn live_step(live: Set<Seq<char>>, event: Presence) -> Set<Seq<char>> {
    match event {
        Presence::Announce(id) => live.insert(id),
        Presence::Withdraw(id) => live.remove(id),
        Presence::Other => live,
    }
}

/// The live devices after the events of `events`, in order.
pub open spec fn live_after(live: Set<Seq<char>>, events: Seq<Presence>) -> Set<Seq<char>>
    decreases events.len(),
{
    if events.len() == 0 {
        live
    } else {
        live_step(live_after(live, events.drop_last()), events.last())
    }
}

/// `id` was announced by some event of `events` and not withdrawn after it.
pub open spec fn announced_last(events: Seq<Presence>, id: Seq<char>) -> bool {
    exists|i: int|
        0 <= i < events.len() && #[trigger] events[i] == Presence::Announce(id) && forall|j: int|
            i < j < events.len() ==> #[trigger] events[j] != Presence::Withdraw(id)
}

/// No event of `events` withdraws `id`.
pub open spec fn never_withdrawn(events: Seq<Presence>, id: Seq<char>) -> bool {
    forall|j: int| 0 <= j < events.len() ==> #[trigger] events[j] != Presence::Withdraw(id)
}

/// After any run of events, a device is live exactly if its most recent
/// event of presence announced it, or if it was live before and no event
/// withdrew it.
pub proof fn lemma_live_after(live: Set<Seq<char>>, events: Seq<Presence>, id: Seq<char>)
    ensures
        live_after(live, events).contains(id) <==> (announced_last(events, id) || (live.contains(id)
            && never_withdrawn(events, id))),
    decreases events.len(),
{
    if events.len() > 0 {
        let front = events.drop_last();
        let e = events.last();
        lemma_live_after(live, front, id);
        let n = events.len() - 1;
        assert(events[n] == e);
        assert forall|j: int| 0 <= j < n implies front[j] == events[j] by {}
        if e == Presence::Announce(id) {
            assert(announced_last(events, id));
        } else if e == Presence::Withdraw(id) {
            assert(!never_withdrawn(events, id));
            assert(!announced_last(events, id)) by {
                if announced_last(events, id) {
                    let i = choose|i: int|
                        0 <= i < events.len() && #[trigger] events[i] == Presence::Announce(id)
                            && forall|j: int|
                            i < j < events.len() ==> #[trigger] events[j] != Presence::Withdraw(id);
                    assert(events[n] != Presence::Withdraw(id));
                }
            }
        } else {
            assert(live_after(live, events).contains(id) == live_after(live, front).contains(id));
            if announced_last(front, id) {
                let i = choose|i: int|
                    0 <= i < front.len() && #[trigger] front[i] == Presence::Announce(id)
                        && forall|j: int|
                        i < j < front.len() ==> #[trigger] front[j] != Presence::Withdraw(id);
                assert(events[i] == Presence::Announce(id));
                assert forall|j: int| i < j < events.len() implies #[trigger] events[j]
                    != Presence::Withdraw(id) by {
                    if j < n {
                        assert(front[j] == events[j]);
                    }
                }
                assert(announced_last(events, id));
            }
            if announced_last(events, id) {
                let i = choose|i: int|
                    0 <= i < events.len() && #[trigger] events[i] == Presence::Announce(id)
                        && forall|j: int|
                        i < j < events.len() ==> #[trigger] events[j] != Presence::Withdraw(id);
                assert(i < n);
                assert(front[i] == Presence::Announce(id));
                assert forall|j: int| i < j < front.len() implies #[trigger] front[j]
                    != Presence::Withdraw(id) by {
                    assert(front[j] == events[j]);
                }
                assert(announced_last(front, id));
            }
            if never_withdrawn(front, id) {
                assert forall|j: int| 0 <= j < events.len() implies #[trigger] events[j]
                    != Presence::Withdraw(id) by {
                    if j < n {
                        assert(front[j] == events[j]);
                    }
                }
            }
            if never_withdrawn(events, id) {
                assert forall|j: int| 0 <= j < front.len() implies #[trigger] front[j]
                    != Presence::Withdraw(id) by {
                    assert(front[j] == events[j]);
                }
            }
        }
    }
}

/// Starting with no device, the live devices after any run of events are
/// exactly those whose most recent event of presence announced them.
pub proof fn lemma_live_from_nothing(events: Seq<Presence>, id: Seq<char>)
    ensures
        live_after(Set::empty(), events).contains(id) <==> announced_last(events, id),
{
    lemma_live_after(Set::empty(), events, id);
}

} // verus!
