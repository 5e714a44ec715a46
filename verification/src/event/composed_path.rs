//! The composed-path computation: the boundary-filtered view of the dispatch
//! path as seen from the currently invoked target.
//!
//! The dispatch path is scanned from its end toward its front to locate the
//! current target, counting how deep inside closed encapsulation boundaries
//! that record sits (`base_level`). The records on either side of it are then
//! walked outward while a visibility window is maintained: a record crossing
//! into a closed boundary raises the level above the window and is hidden,
//! and once the walk crosses back out of a closed boundary the window shrinks
//! for good — visibility lost at a closed boundary is never regained.
use vstd::prelude::*;

use crate::event::event::{Event, EventState, PathTarget};
use crate::event::event_target::TargetHandle;

verus! {

/// Net change the locating scan applies to its counter for a record it
/// passes completely: up one entering a closed tree, down one leaving one.
pub open spec fn scan_delta(e: PathTarget) -> int {
    (if e.root_closed_tree {
        1int
    } else {
        0int
    }) - (if e.slot_closed_tree {
        1int
    } else {
        0int
    })
}

/// Counter value accumulated by scanning every record of `s`.
pub open spec fn scan_level(s: Seq<PathTarget>) -> int
    decreases s.len(),
{
    if s.len() == 0 {
        0
    } else {
        scan_delta(s.first()) + scan_level(s.drop_first())
    }
}

/// Whether some record of the path names `t` as its invocation target.
pub open spec fn has_target(path: Seq<PathTarget>, t: TargetHandle) -> bool {
    exists|i: int| 0 <= i < path.len() && path[i].invocation_target == t
}

/// The largest index whose record names `t`, or -1 when none does. The
/// locating scan runs from the end of the path, so this is the record it
/// stops at.
pub open spec fn last_index_of(path: Seq<PathTarget>, t: TargetHandle) -> int
    decreases path.len(),
{
    if path.len() == 0 {
        -1
    } else if path.last().invocation_target == t {
        path.len() - 1
    } else {
        last_index_of(path.drop_last(), t)
    }
}

/// The hidden-subtree counter at the located record `i`: its own entering
/// crossing, plus the net crossings of every record scanned before it.
pub open spec fn base_level(path: Seq<PathTarget>, i: int) -> int {
    (if path[i].root_closed_tree {
        1int
    } else {
        0int
    }) + scan_level(path.subrange(i + 1, path.len() as int))
}

/// The walk from the located record toward the front of the path, over the
/// records `s` strictly before it, given the incoming level and window. The
/// result keeps path order: visible records farther from the located one come
/// first. Entering crossings raise the level before the visibility test;
/// leaving crossings lower it afterwards and shrink the window when it drops
/// below it.
pub open spec fn visible_toward_front(s: Seq<PathTarget>, level: int, max_level: int) -> Seq<
    TargetHandle,
>
    decreases s.len(),
{
    if s.len() == 0 {
        Seq::empty()
    } else {
        let e = s.last();
        let lvl: int = level + if e.root_closed_tree {
            1int
        } else {
            0int
        };
        let lvl2: int = lvl - if e.slot_closed_tree {
            1int
        } else {
            0int
        };
        let max2: int = if e.slot_closed_tree && lvl2 < max_level {
            lvl2
        } else {
            max_level
        };
        let rest = visible_toward_front(s.drop_last(), lvl2, max2);
        if lvl <= max_level {
            rest.push(e.invocation_target)
        } else {
            rest
        }
    }
}

/// The walk from the located record toward the end of the path, over the
/// records `s` strictly after it: the mirror image of
/// [`visible_toward_front`], with the roles of the two crossing flags
/// swapped.
pub open spec fn visible_toward_back(s: Seq<PathTarget>, level: int, max_level: int) -> Seq<
    TargetHandle,
>
    decreases s.len(),
{
    if s.len() == 0 {
        Seq::empty()
    } else {
        let e = s.first();
        let lvl: int = level + if e.slot_closed_tree {
            1int
        } else {
            0int
        };
        let lvl2: int = lvl - if e.root_closed_tree {
            1int
        } else {
            0int
        };
        let max2: int = if e.root_closed_tree && lvl2 < max_level {
            lvl2
        } else {
            max_level
        };
        let rest = visible_toward_back(s.drop_first(), lvl2, max2);
        if lvl <= max_level {
            seq![e.invocation_target] + rest
        } else {
            rest
        }
    }
}

/// The composed path of a non-empty dispatch path as seen from `t`: the
/// visible records before the located one, the current target itself, and
/// the visible records after it, in path order.
pub open spec fn composed_path_spec(path: Seq<PathTarget>, t: TargetHandle) -> Seq<TargetHandle> {
    if path.len() == 0 {
        Seq::empty()
    } else {
        let i = last_index_of(path, t);
        let base = base_level(path, i);
        visible_toward_front(path.subrange(0, i), base, base) + seq![t] + visible_toward_back(
            path.subrange(i + 1, path.len() as int),
            base,
            base,
        )
    }
}

/// The composed path of an event: empty outside an active dispatch, and the
/// filtered view from the current target during one.
pub open spec fn event_composed_path(s: EventState) -> Seq<TargetHandle> {
    if s.path.len() == 0 {
        Seq::empty()
    } else {
        composed_path_spec(s.path, s.current_target.unwrap())
    }
}

/// The invocation targets of a stretch of the path, in path order.
pub open spec fn invocation_targets(s: Seq<PathTarget>) -> Seq<TargetHandle> {
    s.map_values(|e: PathTarget| e.invocation_target)
}

/// A scan over records that cross no boundary leaves the counter unchanged.
proof fn lemma_scan_level_no_boundaries(s: Seq<PathTarget>)
    requires
        forall|j: int|
            0 <= j < s.len() ==> !s[j].root_closed_tree && !s[j].slot_closed_tree,
    ensures
        scan_level(s) == 0,
    decreases s.len(),
{
    if s.len() > 0 {
        assert(forall|j: int| 0 <= j < s.drop_first().len() ==> s.drop_first()[j] == s[j + 1]);
        lemma_scan_level_no_boundaries(s.drop_first());
    }
}

/// The front walk over records that cross no boundary keeps every record.
proof fn lemma_front_no_boundaries(s: Seq<PathTarget>, level: int)
    requires
        forall|j: int|
            0 <= j < s.len() ==> !s[j].root_closed_tree && !s[j].slot_closed_tree,
    ensures
        visible_toward_front(s, level, level) == invocation_targets(s),
    decreases s.len(),
{
    if s.len() > 0 {
        assert(forall|j: int| 0 <= j < s.drop_last().len() ==> s.drop_last()[j] == s[j]);
        lemma_front_no_boundaries(s.drop_last(), level);
        assert(invocation_targets(s.drop_last()).push(s.last().invocation_target)
            =~= invocation_targets(s));
    } else {
        assert(invocation_targets(s) =~= Seq::<TargetHandle>::empty());
    }
}

/// The back walk over records that cross no boundary keeps every record.
proof fn lemma_back_no_boundaries(s: Seq<PathTarget>, level: int)
    requires
        forall|j: int|
            0 <= j < s.len() ==> !s[j].root_closed_tree && !s[j].slot_closed_tree,
    ensures
        visible_toward_back(s, level, level) == invocation_targets(s),
    decreases s.len(),
{
    if s.len() > 0 {
        assert(forall|j: int| 0 <= j < s.drop_first().len() ==> s.drop_first()[j] == s[j + 1]);
        lemma_back_no_boundaries(s.drop_first(), level);
        assert(seq![s.first().invocation_target] + invocation_targets(s.drop_first())
            =~= invocation_targets(s));
    } else {
        assert(invocation_targets(s) =~= Seq::<TargetHandle>::empty());
    }
}

/// Law: on a path with no closed boundaries, every record is visible — the
/// composed path is the whole path's invocation targets in path order,
/// whichever record the current target is.
pub proof fn lemma_no_boundaries_full_visibility(path: Seq<PathTarget>, t: TargetHandle)
    requires
        path.len() > 0,
        has_target(path, t),
        forall|j: int|
            0 <= j < path.len() ==> !path[j].root_closed_tree && !path[j].slot_closed_tree,
    ensures
        composed_path_spec(path, t) == invocation_targets(path),
{
    lemma_last_index_of_props(path, t);
    let i = last_index_of(path, t);
    let suffix = path.subrange(i + 1, path.len() as int);
    let prefix = path.subrange(0, i);
    lemma_scan_level_no_boundaries(suffix);
    assert(base_level(path, i) == 0);
    lemma_front_no_boundaries(prefix, 0);
    lemma_back_no_boundaries(suffix, 0);
    assert(invocation_targets(prefix) + seq![t] + invocation_targets(suffix)
        =~= invocation_targets(path));
}

/// Once the level sits above the window, a walk over records that never
/// cross back out of a closed boundary keeps nothing.
proof fn lemma_front_all_hidden(s: Seq<PathTarget>, level: int, max_level: int)
    requires
        level > max_level,
        forall|j: int| 0 <= j < s.len() ==> !s[j].slot_closed_tree,
    ensures
        visible_toward_front(s, level, max_level) == Seq::<TargetHandle>::empty(),
    decreases s.len(),
{
    if s.len() > 0 {
        assert(forall|j: int| 0 <= j < s.drop_last().len() ==> s.drop_last()[j] == s[j]);
        let lvl: int = level + if s.last().root_closed_tree {
            1int
        } else {
            0int
        };
        lemma_front_all_hidden(s.drop_last(), lvl, max_level);
    }
}

/// A record crossing into a closed tree hides itself and everything beyond
/// it toward the front, when no record of the stretch crosses back out.
proof fn lemma_closed_root_hides_front(s: Seq<PathTarget>, k: int, level: int, max_level: int)
    requires
        0 <= k < s.len(),
        s[k].root_closed_tree,
        forall|j: int| 0 <= j < s.len() ==> !s[j].slot_closed_tree,
        level >= max_level,
    ensures
        visible_toward_front(s, level, max_level) == visible_toward_front(
            s.subrange(k + 1, s.len() as int),
            level,
            max_level,
        ),
    decreases s.len(),
{
    assert(forall|j: int| 0 <= j < s.drop_last().len() ==> s.drop_last()[j] == s[j]);
    let lvl: int = level + if s.last().root_closed_tree {
        1int
    } else {
        0int
    };
    if k == s.len() - 1 {
        lemma_front_all_hidden(s.drop_last(), lvl, max_level);
        assert(s.subrange(k + 1, s.len() as int) =~= Seq::<PathTarget>::empty());
    } else {
        lemma_closed_root_hides_front(s.drop_last(), k, lvl, max_level);
        let sub = s.subrange(k + 1, s.len() as int);
        assert(sub.last() == s.last());
        assert(sub.drop_last() =~= s.drop_last().subrange(k + 1, s.drop_last().len() as int));
    }
}

/// Law: when some record before the current target crosses into a closed
/// tree, and no record before the current target crosses back out of one,
/// that record and everything beyond it toward the front of the path is
/// excluded — the walk below the current target sees only the records above
/// the crossing, and the composed path contains nothing from at or below it.
pub proof fn lemma_closed_boundary_hides_beyond(path: Seq<PathTarget>, t: TargetHandle, k: int)
    requires
        path.len() > 0,
        has_target(path, t),
        0 <= k < last_index_of(path, t),
        path[k].root_closed_tree,
        forall|j: int| 0 <= j < last_index_of(path, t) ==> !path[j].slot_closed_tree,
    ensures
        composed_path_spec(path, t) == visible_toward_front(
            path.subrange(k + 1, last_index_of(path, t)),
            base_level(path, last_index_of(path, t)),
            base_level(path, last_index_of(path, t)),
        ) + seq![t] + visible_toward_back(
            path.subrange(last_index_of(path, t) + 1, path.len() as int),
            base_level(path, last_index_of(path, t)),
            base_level(path, last_index_of(path, t)),
        ),
{
    lemma_last_index_of_props(path, t);
    let i = last_index_of(path, t);
    let b = base_level(path, i);
    let prefix = path.subrange(0, i);
    assert(forall|j: int| 0 <= j < prefix.len() ==> prefix[j] == path[j]);
    lemma_closed_root_hides_front(prefix, k, b, b);
    assert(prefix.subrange(k + 1, prefix.len() as int) =~= path.subrange(k + 1, i));
}

/// The scan counter moves by at most one per record.
proof fn lemma_scan_level_bounds(s: Seq<PathTarget>)
    ensures
        -(s.len() as int) <= scan_level(s) <= s.len() as int,
    decreases s.len(),
{
    if s.len() > 0 {
        lemma_scan_level_bounds(s.drop_first());
    }
}

/// A record that matches with nothing matching after it is the one
/// `last_index_of` finds.
proof fn lemma_last_index_of_characterization(path: Seq<PathTarget>, t: TargetHandle, i: int)
    requires
        0 <= i < path.len(),
        path[i].invocation_target == t,
        forall|j: int| i < j < path.len() ==> path[j].invocation_target != t,
    ensures
        last_index_of(path, t) == i,
    decreases path.len(),
{
    if i < path.len() - 1 {
        assert(path.last().invocation_target != t);
        assert(path.drop_last()[i] == path[i]);
        lemma_last_index_of_characterization(path.drop_last(), t, i);
    }
}

/// When some record matches, `last_index_of` finds a matching record with no
/// match after it.
pub proof fn lemma_last_index_of_props(path: Seq<PathTarget>, t: TargetHandle)
    requires
        has_target(path, t),
    ensures
        0 <= last_index_of(path, t) < path.len(),
        path[last_index_of(path, t)].invocation_target == t,
        forall|j: int|
            last_index_of(path, t) < j < path.len() ==> path[j].invocation_target != t,
    decreases path.len(),
{
    if path.last().invocation_target != t {
        let w = choose|i: int| 0 <= i < path.len() && path[i].invocation_target == t;
        assert(path.drop_last()[w] == path[w]);
        lemma_last_index_of_props(path.drop_last(), t);
        assert(forall|j: int|
            last_index_of(path, t) < j < path.len() - 1 ==> path.drop_last()[j] == path[j]);
    }
}

/// Scan the path from its end for the record naming `t`, maintaining the
/// hidden-subtree counter; returns the located index and the counter there.
#[verifier::loop_isolation(false)]
pub(crate) fn locate_current_target(path: &Vec<PathTarget>, t: TargetHandle) -> (r: (usize, i128))
    requires
        path@.len() > 0,
        has_target(path@, t),
    ensures
        r.0 < path@.len(),
        r.0 as int == last_index_of(path@, t),
        r.1 as int == base_level(path@, r.0 as int),
        -(path@.len() as int) <= r.1 as int <= path@.len() as int,
{
    let n = path.len();
    let mut index: usize = n - 1;
    let mut hidden: i128 = 0;
    loop
        invariant
            index < n,
            forall|j: int| index < j < path@.len() ==> path@[j].invocation_target != t,
            hidden as int == scan_level(path@.subrange(index as int + 1, path@.len() as int)),
            -(path@.len() as int) <= hidden as int <= path@.len() as int,
        decreases index,
    {
        let mut lvl: i128 = hidden;
        if path[index].root_closed_tree {
            lvl = lvl + 1;
        }
        if path[index].invocation_target == t {
            proof {
                lemma_last_index_of_characterization(path@, t, index as int);
                lemma_scan_level_bounds(
                    path@.subrange(index as int + 1, path@.len() as int),
                );
            }
            return (index, lvl);
        }
        if path[index].slot_closed_tree {
            lvl = lvl - 1;
        }
        hidden = lvl;
        proof {
            let tail = path@.subrange(index as int, path@.len() as int);
            assert(tail.first() == path@[index as int]);
            assert(tail.drop_first() =~= path@.subrange(
                index as int + 1,
                path@.len() as int,
            ));
            assert(hidden as int == scan_level(tail));
            lemma_scan_level_bounds(tail);
            if index == 0 {
                let w = choose|i: int|
                    0 <= i < path@.len() && path@[i].invocation_target == t;
                assert(false);
            }
        }
        index = index - 1;
    }
}

/// Walk the records before the located one, front of the result first.
#[verifier::loop_isolation(false)]
pub(crate) fn collect_front(path: &Vec<PathTarget>, upto: usize, base: i128) -> (r: Vec<
    TargetHandle,
>)
    requires
        upto <= path@.len(),
        -(path@.len() as int) <= base as int <= path@.len() as int,
    ensures
        r@ == visible_toward_front(path@.subrange(0, upto as int), base as int, base as int),
{
    let n = path.len();
    let mut result: Vec<TargetHandle> = Vec::new();
    let mut level: i128 = base;
    let mut max_level: i128 = base;
    let mut index: usize = upto;
    while index > 0
        invariant
            n == path@.len(),
            index <= upto,
            base as int - (upto - index) <= level as int <= base as int + (upto - index),
            base as int - (upto - index) <= max_level as int <= base as int,
            visible_toward_front(path@.subrange(0, upto as int), base as int, base as int)
                == visible_toward_front(
                path@.subrange(0, index as int),
                level as int,
                max_level as int,
            ) + result@,
        decreases index,
    {
        index = index - 1;
        let ghost pre = path@.subrange(0, index as int + 1);
        let ghost level0 = level as int;
        let ghost max0 = max_level as int;
        let ghost result0 = result@;
        let mut lvl: i128 = level;
        if path[index].root_closed_tree {
            lvl = lvl + 1;
        }
        if lvl <= max_level {
            result.insert(0, path[index].invocation_target);
        }
        let mut lvl2: i128 = lvl;
        if path[index].slot_closed_tree {
            lvl2 = lvl - 1;
            if lvl2 < max_level {
                max_level = lvl2;
            }
        }
        level = lvl2;
        proof {
            assert(pre.last() == path@[index as int]);
            assert(pre.drop_last() =~= path@.subrange(0, index as int));
            let rest = visible_toward_front(
                path@.subrange(0, index as int),
                level as int,
                max_level as int,
            );
            if lvl as int <= max0 {
                assert(visible_toward_front(pre, level0, max0) == rest.push(
                    path@[index as int].invocation_target,
                ));
                assert(rest.push(path@[index as int].invocation_target) + result0 =~= rest
                    + result@);
            } else {
                assert(visible_toward_front(pre, level0, max0) == rest);
            }
        }
    }
    result
}

/// Walk the records after the located one, appending in path order.
#[verifier::loop_isolation(false)]
pub(crate) fn collect_back(path: &Vec<PathTarget>, from: usize, base: i128) -> (r: Vec<
    TargetHandle,
>)
    requires
        from <= path@.len(),
        -(path@.len() as int) <= base as int <= path@.len() as int,
    ensures
        r@ == visible_toward_back(
            path@.subrange(from as int, path@.len() as int),
            base as int,
            base as int,
        ),
{
    let n = path.len();
    let mut result: Vec<TargetHandle> = Vec::new();
    let mut level: i128 = base;
    let mut max_level: i128 = base;
    let mut index: usize = from;
    while index < n
        invariant
            n == path@.len(),
            from <= index <= n,
            base as int - (index - from) <= level as int <= base as int + (index - from),
            base as int - (index - from) <= max_level as int <= base as int,
            visible_toward_back(
                path@.subrange(from as int, path@.len() as int),
                base as int,
                base as int,
            ) == result@ + visible_toward_back(
                path@.subrange(index as int, path@.len() as int),
                level as int,
                max_level as int,
            ),
        decreases n - index,
    {
        let ghost suffix = path@.subrange(index as int, path@.len() as int);
        let ghost level0 = level as int;
        let ghost max0 = max_level as int;
        let ghost result0 = result@;
        let mut lvl: i128 = level;
        if path[index].slot_closed_tree {
            lvl = lvl + 1;
        }
        if lvl <= max_level {
            result.push(path[index].invocation_target);
        }
        let mut lvl2: i128 = lvl;
        if path[index].root_closed_tree {
            lvl2 = lvl - 1;
            if lvl2 < max_level {
                max_level = lvl2;
            }
        }
        level = lvl2;
        proof {
            assert(suffix.first() == path@[index as int]);
            assert(suffix.drop_first() =~= path@.subrange(
                index as int + 1,
                path@.len() as int,
            ));
            let rest = visible_toward_back(
                path@.subrange(index as int + 1, path@.len() as int),
                level as int,
                max_level as int,
            );
            if lvl as int <= max0 {
                assert(visible_toward_back(suffix, level0, max0) == seq![
                    path@[index as int].invocation_target,
                ] + rest);
                assert(result0 + (seq![path@[index as int].invocation_target] + rest)
                    =~= result@ + rest);
            } else {
                assert(visible_toward_back(suffix, level0, max0) == rest);
            }
        }
        index = index + 1;
    }
    proof {
        assert(path@.subrange(n as int, path@.len() as int) =~= Seq::<PathTarget>::empty());
    }
    result
}

impl Event {
    /// The ordered sequence of targets visible from the current target,
    /// always including the current target itself, and empty outside an
    /// active dispatch.
    ///
    /// Valid only at a stable point within one listener invocation: during a
    /// dispatch the current target must name some record of the path, which
    /// the external dispatch algorithm guarantees.
    pub fn composed_path(&self) -> (r: Vec<TargetHandle>)
        requires
            self@.path.len() > 0 ==> self@.current_target is Some && has_target(
                self@.path,
                self@.current_target.unwrap(),
            ),
        ensures
            r@ == event_composed_path(self@),
            self@.path.len() == 0 ==> r@ == Seq::<TargetHandle>::empty(),
            self@.path.len() > 0 ==> r@.contains(self@.current_target.unwrap()),
    {
        let composed_path: Vec<TargetHandle> = Vec::new();
        if self._path.len() == 0 {
            return composed_path;
        }
        let current_target = self._current_target.unwrap();
        let (current_target_index, base) = locate_current_target(&self._path, current_target);
        let mut result = collect_front(&self._path, current_target_index, base);
        result.push(current_target);
        let mut back = collect_back(&self._path, current_target_index + 1, base);
        result.append(&mut back);
        proof {
            let i = last_index_of(self@.path, current_target);
            let b = base_level(self@.path, i);
            assert(result@ =~= visible_toward_front(self@.path.subrange(0, i), b, b) + seq![
                current_target,
            ] + visible_toward_back(
                self@.path.subrange(i + 1, self@.path.len() as int),
                b,
                b,
            ));
            let at: int = visible_toward_front(self@.path.subrange(0, i), b, b).len() as int;
            assert(result@[at] == current_target);
            assert(result@.contains(current_target));
        }
        result
    }
}

} // verus!
