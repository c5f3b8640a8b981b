//! Per-family change detection.
//!
//! For each address family the updater remembers the last address that
//! a discovery successfully reported, starting from "unknown". A
//! successful discovery replaces that memory and calls for a DNS update
//! exactly when the address differs from it; a failed discovery leaves
//! the memory untouched and never calls for an update. The outcome of
//! an update call is deliberately not an input here: a failed update
//! does not roll the memory back, so the same address is retried only
//! if it changes again.

use vstd::prelude::*;

use crate::addr::IpAddress;

verus! {

/// The tracked address after one discovery result is taken in: a
/// successful discovery is recorded, a failure changes nothing.
pub open spec fn updated_state(
    last: Option<IpAddress>,
    discovered: Option<IpAddress>,
) -> Option<IpAddress> {
    match discovered {
        Option::None => last,
        Option::Some(a) => Option::Some(a),
    }
}

/// Whether one discovery result calls for a DNS update: only a
/// successful discovery that differs from the tracked address does.
/// An unknown tracked address differs from every concrete address.
pub open spec fn update_issued(last: Option<IpAddress>, discovered: Option<IpAddress>) -> bool {
    match discovered {
        Option::None => false,
        Option::Some(a) => last != Option::Some(a),
    }
}

/// The tracked address after a whole sequence of discovery results,
/// starting from unknown.
pub open spec fn state_after(events: Seq<Option<IpAddress>>) -> Option<IpAddress>
    decreases events.len(),
{
    if events.len() == 0 {
        Option::None
    } else {
        updated_state(state_after(events.drop_last()), events.last())
    }
}

/// Whether the discovery result at position `i` of a sequence calls
/// for a DNS update, given everything that came before it.
pub open spec fn issued_at(events: Seq<Option<IpAddress>>, i: int) -> bool {
    update_issued(state_after(events.take(i)), events[i])
}

/// The memory of the last successfully discovered address for one
/// address family.
pub struct FamilyTracker {
    pub last: Option<IpAddress>,
}

impl FamilyTracker {
    /// A fresh tracker: no address is known yet.
    pub fn new() -> (t: FamilyTracker)
        ensures
            t.last is None,
    {
        FamilyTracker { last: None }
    }

    /// Takes in one discovery result; returns whether a DNS update
    /// should be attempted. The result of that attempt must not be fed
    /// back: the new address is remembered whether or not the update
    /// later succeeds.
    pub fn observe(&mut self, discovered: Option<IpAddress>) -> (update: bool)
        ensures
            final(self).last == updated_state(old(self).last, discovered),
            update == update_issued(old(self).last, discovered),
    {
        match discovered {
            None => false,
            Some(a) => {
                let changed = match self.last {
                    None => true,
                    Some(prev) => prev != a,
                };
                self.last = Some(a);
                changed
            },
        }
    }
}

/// Extending a sequence of discovery results by one step changes the
/// tracked address the way a single observation does.
pub proof fn lemma_state_after_step(events: Seq<Option<IpAddress>>, i: int)
    requires
        0 <= i < events.len(),
    ensures
        state_after(events.take(i + 1)) == updated_state(state_after(events.take(i)), events[i]),
{
    assert(events.take(i + 1).drop_last() =~= events.take(i));
    assert(events.take(i + 1).last() == events[i]);
}

/// A sequence of failed discoveries leaves no address recorded.
pub proof fn lemma_all_failures_leave_unknown(events: Seq<Option<IpAddress>>)
    requires
        forall|j: int| 0 <= j < events.len() ==> events[j] is None,
    ensures
        state_after(events) is None,
    decreases events.len(),
{
    if events.len() > 0 {
        assert forall|j: int| 0 <= j < events.drop_last().len() implies events.drop_last()[j]
            is None by {
            assert(events.drop_last()[j] == events[j]);
        }
        lemma_all_failures_leave_unknown(events.drop_last());
    }
}

/// An update is called for at a step if and only if that step's
/// discovery succeeded and its address differs from the address
/// recorded by the successful discoveries before it; failed
/// discoveries are never recorded.
pub proof fn lemma_update_iff_changed(events: Seq<Option<IpAddress>>, i: int)
    requires
        0 <= i < events.len(),
    ensures
        issued_at(events, i) <==> (events[i] matches Some(a) && state_after(events.take(i))
            != Some(a)),
{
}

/// A failed discovery is not recorded: it leaves the tracked address
/// exactly as the earlier results left it.
pub proof fn lemma_failure_not_recorded(events: Seq<Option<IpAddress>>)
    ensures
        state_after(events.push(None)) == state_after(events),
{
    assert(events.push(None).drop_last() =~= events);
}

/// The first successful discovery for a family always calls for an
/// update: the tracker starts unknown, and unknown differs from every
/// concrete address.
pub proof fn lemma_first_success_updates(events: Seq<Option<IpAddress>>, i: int)
    requires
        0 <= i < events.len(),
        forall|j: int| 0 <= j < i ==> events[j] is None,
        events[i] is Some,
    ensures
        issued_at(events, i),
{
    assert forall|j: int| 0 <= j < events.take(i).len() implies events.take(i)[j] is None by {
        assert(events.take(i)[j] == events[j]);
    }
    lemma_all_failures_leave_unknown(events.take(i));
}

/// Two consecutive identical successful discoveries call for at most
/// one update: the second one never does, because the first recorded
/// its address.
pub proof fn lemma_repeat_no_second_update(events: Seq<Option<IpAddress>>, i: int)
    requires
        0 <= i,
        i + 1 < events.len(),
        events[i] is Some,
        events[i + 1] == events[i],
    ensures
        !issued_at(events, i + 1),
{
    lemma_state_after_step(events, i);
}

/// A discovery failure followed by a successful discovery of the
/// address already recorded calls for no update at either step.
pub proof fn lemma_failure_then_known_address(events: Seq<Option<IpAddress>>, i: int)
    requires
        0 <= i,
        i + 1 < events.len(),
        events[i] is None,
        events[i + 1] == state_after(events.take(i)),
        events[i + 1] is Some,
    ensures
        !issued_at(events, i),
        !issued_at(events, i + 1),
{
    lemma_state_after_step(events, i);
}

/// The outcome of an update call is not an input to the tracker, so a
/// failed update cannot block later updates: a successful discovery of
/// a different address at the next step still calls for one.
pub proof fn lemma_new_address_still_updates(events: Seq<Option<IpAddress>>, i: int)
    requires
        0 <= i,
        i + 1 < events.len(),
        events[i] is Some,
        events[i + 1] is Some,
        events[i + 1] != events[i],
    ensures
        issued_at(events, i + 1),
{
    lemma_state_after_step(events, i);
}

/// Feeds a whole sequence of discovery results to a fresh tracker and
/// reports, for each step, whether it called for a DNS update.
pub fn run_trace(events: &Vec<Option<IpAddress>>) -> (issued: Vec<bool>)
    ensures
        issued.len() == events.len(),
        forall|i: int| 0 <= i < events@.len() ==> issued@[i] == issued_at(events@, i),
{
    let mut tracker = FamilyTracker::new();
    let mut issued: Vec<bool> = Vec::new();
    let mut j: usize = 0;
    proof {
        assert(events@.take(0) =~= Seq::<Option<IpAddress>>::empty());
    }
    while j < events.len()
        invariant
            0 <= j <= events@.len(),
            issued@.len() == j,
            tracker.last == state_after(events@.take(j as int)),
            forall|i: int| 0 <= i < j ==> issued@[i] == issued_at(events@, i),
        decreases events@.len() - j,
    {
        let update = tracker.observe(events[j]);
        proof {
            lemma_state_after_step(events@, j as int);
        }
        issued.push(update);
        j = j + 1;
    }
    issued
}

} // verus!
