use dom_events::event::event::{Event, PathTarget};
use dom_events::event::event_target::TargetHandle;

fn entry(id: u64, root_closed: bool, slot_closed: bool) -> PathTarget {
    PathTarget {
        invocation_target: TargetHandle(id),
        shadow_tree: false,
        shadow_adjusted_target: None,
        related_target: None,
        touch_targets: vec![],
        root_closed_tree: root_closed,
        slot_closed_tree: slot_closed,
    }
}

fn dispatching(entries: Vec<PathTarget>, current: u64) -> Event {
    let mut ev = Event::new("click", None);
    ev._path = entries;
    ev._current_target = Some(TargetHandle(current));
    ev
}

fn ids(path: Vec<TargetHandle>) -> Vec<u64> {
    path.into_iter().map(|h| h.0).collect()
}

#[test]
fn empty_path_gives_empty_composed_path() {
    let ev = Event::new("click", None);
    assert!(ev.composed_path().is_empty());
}

#[test]
fn open_path_is_returned_whole_in_path_order() {
    // Dispatch path from the target end to the root end, no closed
    // boundaries anywhere: every participant is visible.
    let ev = dispatching(
        vec![entry(1, false, false), entry(2, false, false), entry(3, false, false)],
        1,
    );
    assert_eq!(ids(ev.composed_path()), vec![1, 2, 3]);
}

#[test]
fn open_path_is_whole_from_any_current_target() {
    let path = vec![entry(1, false, false), entry(2, false, false), entry(3, false, false)];
    for current in 1..=3 {
        let ev = dispatching(path.clone(), current);
        assert_eq!(ids(ev.composed_path()), vec![1, 2, 3]);
    }
}

#[test]
fn closed_root_hides_itself_and_everything_beyond() {
    // Record 2 crosses into a closed tree on the way down from the current
    // target, and nothing before the current target crosses back out: record
    // 2 and record 1 beyond it are hidden.
    let ev = dispatching(
        vec![
            entry(1, false, false),
            entry(2, true, false),
            entry(3, false, false),
            entry(4, false, false),
        ],
        4,
    );
    assert_eq!(ids(ev.composed_path()), vec![3, 4]);
}

#[test]
fn target_inside_closed_tree_sees_everything() {
    // Viewed from inside the closed tree, both the closed root and the
    // outside records stay visible.
    let ev = dispatching(
        vec![entry(1, false, false), entry(2, true, false), entry(3, false, false)],
        1,
    );
    assert_eq!(ids(ev.composed_path()), vec![1, 2, 3]);
}

#[test]
fn host_outside_closed_tree_sees_only_itself() {
    let ev = dispatching(
        vec![entry(1, false, false), entry(2, true, false), entry(3, false, false)],
        3,
    );
    assert_eq!(ids(ev.composed_path()), vec![3]);
}

#[test]
fn visibility_lost_at_a_boundary_is_not_regained() {
    // Walking from the current target toward the front: record 2 leaves a
    // closed tree, shrinking the window for good, so record 1 — which enters
    // one — stays hidden even though its level matches the starting window.
    let ev = dispatching(
        vec![entry(1, true, false), entry(2, false, true), entry(3, false, false)],
        3,
    );
    assert_eq!(ids(ev.composed_path()), vec![2, 3]);
}

#[test]
fn closed_slot_hides_the_descendant_side() {
    // On the far side of the current target the roles swap: a record whose
    // slot crossing enters a closed tree hides itself and what follows.
    let ev = dispatching(
        vec![entry(1, false, false), entry(2, false, true), entry(3, false, false)],
        1,
    );
    assert_eq!(ids(ev.composed_path()), vec![1]);
}

#[test]
fn closed_root_sees_its_own_tree_and_the_outside() {
    // From the closed root itself the locating scan starts one level deep,
    // so the record inside its tree and the records outside both stay
    // visible.
    let ev = dispatching(
        vec![entry(1, false, false), entry(2, true, false), entry(3, false, false)],
        2,
    );
    assert_eq!(ids(ev.composed_path()), vec![1, 2, 3]);
}

#[test]
fn composed_path_always_contains_the_current_target() {
    let ev = dispatching(
        vec![entry(1, true, true), entry(2, true, true), entry(3, true, true)],
        2,
    );
    let path = ids(ev.composed_path());
    assert!(path.contains(&2));
}
