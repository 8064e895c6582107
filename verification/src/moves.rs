//! What holds of every move of a file, from [`crate::organize::begin_move`] on.

use vstd::prelude::*;

use crate::organize::{ActionView, EventView, OrganizeErrorView};
use crate::path::DestinationView;

verus! {

/// A move of `source` to `dest`: `events[i]` came of `actions[i]`, and `actions[i + 1]` follows.
pub open spec fn is_move_of(
    source: Seq<char>,
    dest: DestinationView,
    actions: Seq<ActionView>,
    events: Seq<EventView>,
) -> bool {
    &&& actions.len() == events.len() + 1
    &&& actions[0] == crate::organize::first_of_move(dest)
    &&& forall|i: int|
        0 <= i < events.len() ==> {
            &&& crate::organize::answers(actions[i], #[trigger] events[i])
            &&& actions[i + 1] == crate::organize::next_of_move(source, dest, actions[i], events[i])
        }
}

/// Whether `path` is the destination, or the destination with a number.
pub open spec fn is_candidate_of(dest: DestinationView, path: Seq<char>) -> bool {
    exists|n: nat|
        1 <= n <= crate::destination::LAST_ATTEMPT && path
            == #[trigger] crate::destination::candidate(dest, n)
}

/// Whether an action is one of a move of `source` to `dest`, and touches nothing else.
pub open spec fn stays_on_the_way(
    source: Seq<char>,
    dest: DestinationView,
    action: ActionView,
) -> bool {
    match action {
        ActionView::CreateDirectory { path } => dest.parent == Some(path),
        ActionView::CheckDestination { attempt, path } => {
            &&& 1 <= attempt <= crate::destination::LAST_ATTEMPT
            &&& path == crate::destination::candidate(dest, attempt)
        },
        ActionView::Rename { from, to } => from == source && is_candidate_of(dest, to),
        ActionView::Copy { from, to } => from == source && is_candidate_of(dest, to),
        ActionView::Remove { path, to } => path == source && is_candidate_of(dest, to),
        ActionView::Finish { path } => is_candidate_of(dest, path),
        ActionView::Fail { .. } => true,
        _ => false,
    }
}

/// Every action of a move touches nothing but its source and its destination.
pub proof fn moves_stay_on_the_way(
    source: Seq<char>,
    dest: DestinationView,
    actions: Seq<ActionView>,
    events: Seq<EventView>,
    k: int,
)
    requires
        is_move_of(source, dest, actions, events),
        0 <= k < actions.len(),
    ensures
        stays_on_the_way(source, dest, actions[k]),
    decreases k,
{
    assert(crate::destination::candidate(dest, 1) == dest.path);
    if k > 0 {
        moves_stay_on_the_way(source, dest, actions, events, k - 1);
        let before = actions[k - 1];
        assert(crate::organize::answers(before, events[k - 1]));
        if let ActionView::CheckDestination { attempt, path } = before {
            assert(path == crate::destination::candidate(dest, attempt));
        }
    }
}

/// No move overwrites a file that it saw: it renames its source, and only to a path that was just
/// seen not to exist.
pub proof fn moves_rename_to_a_free_path(
    source: Seq<char>,
    dest: DestinationView,
    actions: Seq<ActionView>,
    events: Seq<EventView>,
    k: int,
)
    requires
        is_move_of(source, dest, actions, events),
        0 <= k < actions.len(),
        actions[k] is Rename,
    ensures
        actions[k]->Rename_from == source,
        k > 0,
        actions[k - 1] matches ActionView::CheckDestination { path, .. } && path
            == actions[k]->Rename_to,
        events[k - 1] == (EventView::DestinationChecked { exists: false }),
{
    assert(k > 0);
    moves_stay_on_the_way(source, dest, actions, events, k - 1);
    assert(crate::organize::answers(actions[k - 1], events[k - 1]));
}

/// Only a rename that failed is followed by a copy, of the same source to the same path, which was
/// seen not to exist.
pub proof fn moves_copy_only_after_a_failed_rename(
    source: Seq<char>,
    dest: DestinationView,
    actions: Seq<ActionView>,
    events: Seq<EventView>,
    k: int,
)
    requires
        is_move_of(source, dest, actions, events),
        0 <= k < actions.len(),
        actions[k] is Copy,
    ensures
        actions[k]->Copy_from == source,
        k > 1,
        actions[k - 1] == (ActionView::Rename { from: source, to: actions[k]->Copy_to }),
        events[k - 1] is Failed,
        actions[k - 2] matches ActionView::CheckDestination { path, .. } && path
            == actions[k]->Copy_to,
        events[k - 2] == (EventView::DestinationChecked { exists: false }),
{
    assert(k > 0);
    assert(crate::organize::answers(actions[k - 1], events[k - 1]));
    moves_stay_on_the_way(source, dest, actions, events, k - 1);
    moves_rename_to_a_free_path(source, dest, actions, events, k - 1);
}

/// A move removes nothing but its source, and only once it was copied.
pub proof fn moves_remove_only_what_was_copied(
    source: Seq<char>,
    dest: DestinationView,
    actions: Seq<ActionView>,
    events: Seq<EventView>,
    k: int,
)
    requires
        is_move_of(source, dest, actions, events),
        0 <= k < actions.len(),
        actions[k] is Remove,
    ensures
        actions[k]->Remove_path == source,
        k > 0,
        actions[k - 1] == (ActionView::Copy { from: source, to: actions[k]->Remove_to }),
        events[k - 1] is Done,
{
    assert(k > 0);
    moves_stay_on_the_way(source, dest, actions, events, k - 1);
    assert(crate::organize::answers(actions[k - 1], events[k - 1]));
}

/// A move that finishes has moved its source to the path that it finishes with: it was renamed to
/// it, or copied to it and then removed.
pub proof fn finished_moves_have_moved_the_source(
    source: Seq<char>,
    dest: DestinationView,
    actions: Seq<ActionView>,
    events: Seq<EventView>,
    k: int,
)
    requires
        is_move_of(source, dest, actions, events),
        0 <= k < actions.len(),
        actions[k] is Finish,
    ensures
        ({
            let to = actions[k]->Finish_path;
            ||| {
                &&& k > 0
                &&& actions[k - 1] == (ActionView::Rename { from: source, to })
                &&& events[k - 1] is Done
            }
            ||| {
                &&& k > 1
                &&& actions[k - 2] == (ActionView::Copy { from: source, to })
                &&& events[k - 2] is Done
                &&& actions[k - 1] == (ActionView::Remove { path: source, to })
                &&& events[k - 1] is Done
            }
        }),
{
    assert(k > 0);
    assert(crate::organize::answers(actions[k - 1], events[k - 1]));
    moves_stay_on_the_way(source, dest, actions, events, k - 1);
    if actions[k - 1] is Remove {
        moves_remove_only_what_was_copied(source, dest, actions, events, k - 1);
    }
}

/// A move that fails has left its source where it was: no rename and no removal succeeded.
pub proof fn failed_moves_have_kept_the_source(
    source: Seq<char>,
    dest: DestinationView,
    actions: Seq<ActionView>,
    events: Seq<EventView>,
    j: int,
    k: int,
)
    requires
        is_move_of(source, dest, actions, events),
        0 <= j < k < actions.len(),
        actions[k] is Fail,
    ensures
        actions[j] is Rename || actions[j] is Remove ==> events[j] is Failed,
{
    assert(crate::organize::answers(actions[j], events[j]));
    if j + 1 < k {
        assert(crate::organize::answers(actions[j + 1], events[j + 1]));
    }
}

/// Whether the look at `j` found that the candidate `n` of `dest` exists.
pub open spec fn taken_at(
    dest: DestinationView,
    actions: Seq<ActionView>,
    events: Seq<EventView>,
    n: nat,
    j: int,
) -> bool {
    &&& actions[j] == (ActionView::CheckDestination {
        attempt: n,
        path: crate::destination::candidate(dest, n),
    })
    &&& events[j] == (EventView::DestinationChecked { exists: true })
}

/// Whether a look before `k` found that the candidate `n` of `dest` exists.
pub open spec fn taken_before(
    dest: DestinationView,
    actions: Seq<ActionView>,
    events: Seq<EventView>,
    n: nat,
    k: int,
) -> bool {
    exists|j: int| 0 <= j < k && #[trigger] taken_at(dest, actions, events, n, j)
}

/// A move looks at a candidate only once every earlier one was seen to exist.
pub proof fn moves_look_in_order(
    source: Seq<char>,
    dest: DestinationView,
    actions: Seq<ActionView>,
    events: Seq<EventView>,
    n: nat,
    k: int,
)
    requires
        is_move_of(source, dest, actions, events),
        0 <= k < actions.len(),
        actions[k] matches ActionView::CheckDestination { attempt, .. } && 1 <= n < attempt,
    ensures
        taken_before(dest, actions, events, n, k),
    decreases k,
{
    assert(k > 0);
    moves_stay_on_the_way(source, dest, actions, events, k - 1);
    let before = actions[k - 1];
    assert(crate::organize::answers(before, events[k - 1]));
    assert(before is CheckDestination && before->attempt == actions[k]->attempt - 1);
    if n == before->attempt {
        assert(taken_at(dest, actions, events, n, k - 1));
    } else {
        moves_look_in_order(source, dest, actions, events, n, k - 1);
    }
}

/// A move goes to the first candidate that was seen not to exist: where its source is renamed,
/// every candidate before the one just looked at was seen to exist.
pub proof fn moves_take_the_lowest_free_number(
    source: Seq<char>,
    dest: DestinationView,
    actions: Seq<ActionView>,
    events: Seq<EventView>,
    n: nat,
    k: int,
)
    requires
        is_move_of(source, dest, actions, events),
        0 < k < actions.len(),
        actions[k] is Rename,
        actions[k - 1] matches ActionView::CheckDestination { attempt, .. } && 1 <= n < attempt,
    ensures
        actions[k]->Rename_to == crate::destination::candidate(dest, actions[k - 1]->attempt),
        taken_before(dest, actions, events, n, k),
{
    moves_rename_to_a_free_path(source, dest, actions, events, k);
    moves_stay_on_the_way(source, dest, actions, events, k - 1);
    moves_look_in_order(source, dest, actions, events, n, k - 1);
    let j = choose|j: int| 0 <= j < k - 1 && #[trigger] taken_at(dest, actions, events, n, j);
    assert(taken_at(dest, actions, events, n, j));
}

/// A move gives up the search for a free path only once every candidate was seen to exist.
pub proof fn moves_search_until_all_are_taken(
    source: Seq<char>,
    dest: DestinationView,
    actions: Seq<ActionView>,
    events: Seq<EventView>,
    n: nat,
    k: int,
)
    requires
        is_move_of(source, dest, actions, events),
        0 <= k < actions.len(),
        actions[k] matches ActionView::Fail { error } && error is NoNameFree,
        1 <= n <= crate::destination::LAST_ATTEMPT,
    ensures
        taken_before(dest, actions, events, n, k),
{
    assert(k > 0);
    moves_stay_on_the_way(source, dest, actions, events, k - 1);
    let before = actions[k - 1];
    assert(crate::organize::answers(before, events[k - 1]));
    assert(before is CheckDestination && before->attempt == crate::destination::LAST_ATTEMPT);
    if n < before->attempt {
        moves_look_in_order(source, dest, actions, events, n, k - 1);
        let j = choose|j: int| 0 <= j < k - 1 && #[trigger] taken_at(dest, actions, events, n, j);
        assert(taken_at(dest, actions, events, n, j));
    } else {
        assert(taken_at(dest, actions, events, n, k - 1));
    }
}

/// How many more actions can follow an action of a move, at most.
pub open spec fn remaining_of_move(action: ActionView) -> int {
    let last = crate::destination::LAST_ATTEMPT as int;
    match action {
        ActionView::CreateDirectory { .. } => last + 4,
        ActionView::CheckDestination { attempt, .. } => last - attempt + 4,
        ActionView::Rename { .. } => 3,
        ActionView::Copy { .. } => 2,
        ActionView::Remove { .. } => 1,
        _ => 0,
    }
}

/// Every move ends: each of its actions leads to one with fewer to follow, down to none.
pub proof fn moves_come_to_an_end(
    source: Seq<char>,
    dest: DestinationView,
    action: ActionView,
    event: EventView,
)
    requires
        crate::organize::is_move(action),
        crate::organize::answers(action, event),
    ensures
        ({
            let next = crate::organize::next_of_move(source, dest, action, event);
            &&& 0 <= remaining_of_move(next) < remaining_of_move(action)
            &&& crate::organize::is_move(next) || next is Finish || next is Fail
        }),
{
}

/// Every rename that failed, for whatever reason, is followed by a copy of the source to the same
/// path.
pub proof fn moves_copy_after_every_failed_rename(
    source: Seq<char>,
    dest: DestinationView,
    actions: Seq<ActionView>,
    events: Seq<EventView>,
    k: int,
)
    requires
        is_move_of(source, dest, actions, events),
        0 <= k < events.len(),
        actions[k] is Rename,
        events[k] is Failed,
    ensures
        actions[k + 1] == (ActionView::Copy { from: source, to: actions[k]->Rename_to }),
{
    moves_stay_on_the_way(source, dest, actions, events, k);
    assert(crate::organize::answers(actions[k], events[k]));
}

/// A move fails only for cause, and tells it: directly before, the directory could not be created,
/// the last candidate was seen to exist, the copy failed, or the removal failed.
pub proof fn moves_fail_only_for_cause(
    source: Seq<char>,
    dest: DestinationView,
    actions: Seq<ActionView>,
    events: Seq<EventView>,
    k: int,
)
    requires
        is_move_of(source, dest, actions, events),
        0 <= k < actions.len(),
        actions[k] is Fail,
    ensures
        k > 0,
        match actions[k]->error {
            OrganizeErrorView::DirectoryNotCreated { path, reason } => {
                &&& actions[k - 1] == (ActionView::CreateDirectory { path })
                &&& events[k - 1] == (EventView::Failed { reason })
            },
            OrganizeErrorView::NoNameFree { path } => {
                &&& path == dest.path
                &&& actions[k - 1] matches ActionView::CheckDestination { attempt, .. } && attempt
                    == u32::MAX
                &&& events[k - 1] == (EventView::DestinationChecked { exists: true })
            },
            OrganizeErrorView::NotCopied { path, reason } => {
                &&& actions[k - 1] == (ActionView::Copy { from: source, to: path })
                &&& events[k - 1] == (EventView::Failed { reason })
            },
            OrganizeErrorView::SourceNotRemoved { path, reason } => {
                &&& path == source
                &&& actions[k - 1] matches ActionView::Remove { path: removed, .. } && removed
                    == source
                &&& events[k - 1] == (EventView::Failed { reason })
            },
            _ => false,
        },
{
    assert(k > 0);
    moves_stay_on_the_way(source, dest, actions, events, k - 1);
    assert(crate::organize::answers(actions[k - 1], events[k - 1]));
}

} // verus!
