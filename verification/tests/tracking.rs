use ddns_updater::addr::IpAddress;
use ddns_updater::tracking::FamilyTracker;
use ddns_updater::tracking::run_trace;

fn v4(bits: u32) -> Option<IpAddress> {
    Some(IpAddress::V4 { bits })
}

fn count_updates(issued: &[bool]) -> usize {
    issued.iter().filter(|&&u| u).count()
}

#[test]
fn first_successful_discovery_always_updates() {
    let issued = run_trace(&vec![v4(1)]);
    assert_eq!(issued, vec![true]);

    // Also after any number of failures: the failures record nothing.
    let issued = run_trace(&vec![None, None, v4(1)]);
    assert_eq!(issued, vec![false, false, true]);
    assert_eq!(count_updates(&issued), 1);
}

#[test]
fn repeated_identical_discovery_updates_at_most_once() {
    let issued = run_trace(&vec![v4(9), v4(9)]);
    assert_eq!(issued, vec![true, false]);
    assert_eq!(count_updates(&issued), 1);
}

#[test]
fn failure_then_known_address_updates_zero_times() {
    // The address is recorded, discovery fails once, then the same
    // address comes back: neither of the last two steps updates.
    let issued = run_trace(&vec![v4(5), None, v4(5)]);
    assert_eq!(issued, vec![true, false, false]);
}

#[test]
fn failed_update_does_not_block_a_changed_address() {
    // The tracker is advanced whether or not the update call at step
    // one succeeds, so a different address at step two still updates.
    let mut tracker = FamilyTracker::new();
    let first = tracker.observe(v4(1));
    assert!(first);
    // Suppose the update call for the first address failed: nothing is
    // fed back to the tracker. A different address must still trigger.
    let second = tracker.observe(v4(2));
    assert!(second);
}

#[test]
fn failure_leaves_tracked_address_unchanged() {
    let mut tracker = FamilyTracker::new();
    assert_eq!(tracker.last, None);
    tracker.observe(v4(7));
    assert_eq!(tracker.last, Some(IpAddress::V4 { bits: 7 }));
    tracker.observe(None);
    assert_eq!(tracker.last, Some(IpAddress::V4 { bits: 7 }));
}

#[test]
fn update_exactly_when_discovery_differs_from_recorded() {
    // A mixed trace: update exactly at the steps whose successful
    // discovery differs from the last successfully recorded address.
    let trace = vec![None, v4(1), v4(1), None, v4(2), v4(2), None, v4(1)];
    let issued = run_trace(&trace);
    assert_eq!(
        issued,
        vec![false, true, false, false, true, false, false, true]
    );
}
