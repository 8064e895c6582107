//! What holds of every run from a request to a finished or failed action.

use vstd::prelude::*;

use crate::organize::{ActionView, EventView, OrganizeErrorView};
use crate::request::TagRequestView;

verus! {

/// A run for the request `r`: `events[i]` came of `actions[i]`, and `actions[i + 1]` follows.
pub open spec fn is_run(
    r: TagRequestView,
    actions: Seq<ActionView>,
    events: Seq<EventView>,
) -> bool {
    &&& actions.len() == events.len() + 1
    &&& actions[0] == crate::organize::first_action(r)
    &&& forall|i: int|
        0 <= i < events.len() ==> {
            &&& crate::organize::answers(actions[i], #[trigger] events[i])
            &&& actions[i + 1] == crate::organize::next_action(r, actions[i], events[i])
        }
}

/// Whether an action touches nothing but the capture and the destination of the request `r`.
pub open spec fn stays_in_place(r: TagRequestView, action: ActionView) -> bool {
    let capture = crate::organize::capture_of(r);
    match action {
        ActionView::CheckCapture { path } => path == capture,
        ActionView::Pause { millis } => millis == crate::organize::CAPTURE_POLL_MILLIS,
        ActionView::FetchCover { url } => r.cover_url == Some(url),
        ActionView::WriteTags { path, cover } => {
            &&& path == capture
            &&& r.cover_url is None ==> cover is None
        },
        _ => crate::moves::stays_on_the_way(capture, crate::layout::organized(r), action),
    }
}

/// Every action of a run touches nothing but the capture and the destination of its request.
pub proof fn runs_stay_in_place(
    r: TagRequestView,
    actions: Seq<ActionView>,
    events: Seq<EventView>,
    k: int,
)
    requires
        is_run(r, actions, events),
        0 <= k < actions.len(),
    ensures
        stays_in_place(r, actions[k]),
    decreases k,
{
    if k > 0 {
        runs_stay_in_place(r, actions, events, k - 1);
        let before = actions[k - 1];
        let event = events[k - 1];
        assert(crate::organize::answers(before, event));
        if let ActionView::CheckDestination { attempt, path } = before {
            let dest = crate::layout::organized(r);
            assert(crate::destination::candidate(dest, 1) == dest.path);
            assert(path == crate::destination::candidate(dest, attempt));
        }
    }
}

/// Whether the look at `j` found the capture.
pub open spec fn found_at(
    r: TagRequestView,
    actions: Seq<ActionView>,
    events: Seq<EventView>,
    j: int,
) -> bool {
    &&& actions[j] == crate::organize::first_action(r)
    &&& events[j] matches EventView::CaptureChecked { exists, .. } && exists
}

/// Whether the tags were written at `j`.
pub open spec fn tagged_at(
    r: TagRequestView,
    actions: Seq<ActionView>,
    events: Seq<EventView>,
    j: int,
) -> bool {
    &&& actions[j] matches ActionView::WriteTags { path, .. } && path
        == crate::organize::capture_of(r)
    &&& events[j] is Done
}

/// A capture is tagged only once it was found, and moved only once its tags were written.
pub proof fn runs_keep_the_order(
    r: TagRequestView,
    actions: Seq<ActionView>,
    events: Seq<EventView>,
    k: int,
)
    requires
        is_run(r, actions, events),
        0 <= k < actions.len(),
    ensures
        ({
            ||| actions[k] is FetchCover
            ||| actions[k] is WriteTags
            ||| crate::organize::is_move(actions[k])
            ||| actions[k] is Finish
        }) ==> exists|j: int| 0 <= j < k && #[trigger] found_at(r, actions, events, j),
        ({
            ||| crate::organize::is_move(actions[k])
            ||| actions[k] is Finish
        }) ==> exists|j: int| 0 <= j < k && #[trigger] tagged_at(r, actions, events, j),
    decreases k,
{
    if k > 0 {
        runs_keep_the_order(r, actions, events, k - 1);
        runs_stay_in_place(r, actions, events, k - 1);
        let before = actions[k - 1];
        let event = events[k - 1];
        assert(crate::organize::answers(before, event));
        if before is CheckCapture && !(actions[k] is Pause) && !(actions[k] is Fail) {
            assert(found_at(r, actions, events, k - 1));
        }
        if before is WriteTags && !(actions[k] is Fail) {
            assert(tagged_at(r, actions, events, k - 1));
        }
    }
}

proof fn tagged_runs_only_move(
    r: TagRequestView,
    actions: Seq<ActionView>,
    events: Seq<EventView>,
    j: int,
    k: int,
)
    requires
        is_run(r, actions, events),
        0 <= j < k < actions.len(),
        tagged_at(r, actions, events, j),
    ensures
        crate::organize::is_move(actions[k]) || actions[k] is Finish || actions[k] is Fail,
    decreases k,
{
    assert(crate::organize::answers(actions[k - 1], events[k - 1]));
    if j < k - 1 {
        tagged_runs_only_move(r, actions, events, j, k - 1);
    }
}

/// Once the tags are written, the rest of a run is a move of the capture to the organized
/// destination, so that what holds of every move holds of it.
pub proof fn tagged_runs_are_moves(
    r: TagRequestView,
    actions: Seq<ActionView>,
    events: Seq<EventView>,
    j: int,
)
    requires
        is_run(r, actions, events),
        0 <= j < events.len(),
        tagged_at(r, actions, events, j),
    ensures
        crate::moves::is_move_of(
            crate::organize::capture_of(r),
            crate::layout::organized(r),
            actions.skip(j + 1),
            events.skip(j + 1),
        ),
{
    let capture = crate::organize::capture_of(r);
    let dest = crate::layout::organized(r);
    let a = actions.skip(j + 1);
    let e = events.skip(j + 1);
    assert(a[0] == actions[j + 1]);
    assert(crate::organize::answers(actions[j], events[j]));
    assert forall|i: int| 0 <= i < e.len() implies {
        &&& crate::organize::answers(a[i], #[trigger] e[i])
        &&& a[i + 1] == crate::organize::next_of_move(capture, dest, a[i], e[i])
    } by {
        let k = j + 1 + i;
        assert(e[i] == events[k] && a[i] == actions[k] && a[i + 1] == actions[k + 1]);
        assert(crate::organize::answers(actions[k], events[k]));
        tagged_runs_only_move(r, actions, events, j, k);
    }
}

proof fn taken_in_the_rest_is_taken(
    r: TagRequestView,
    actions: Seq<ActionView>,
    events: Seq<EventView>,
    n: nat,
    start: int,
    k: int,
)
    requires
        actions.len() == events.len() + 1,
        0 <= start <= k < actions.len(),
        crate::moves::taken_before(
            crate::layout::organized(r),
            actions.skip(start),
            events.skip(start),
            n,
            k - start,
        ),
    ensures
        crate::moves::taken_before(crate::layout::organized(r), actions, events, n, k),
{
    let dest = crate::layout::organized(r);
    let a = actions.skip(start);
    let e = events.skip(start);
    let i = choose|i: int| 0 <= i < k - start && #[trigger] crate::moves::taken_at(dest, a, e, n, i);
    assert(a[i] == actions[start + i] && e[i] == events[start + i]);
    assert(crate::moves::taken_at(dest, actions, events, n, start + i));
}

/// The capture goes to the lowest free number: where it is renamed to the candidate `n`, every
/// candidate before it was seen to exist.
pub proof fn runs_take_the_lowest_free_number(
    r: TagRequestView,
    actions: Seq<ActionView>,
    events: Seq<EventView>,
    m: nat,
    n: nat,
    k: int,
)
    requires
        is_run(r, actions, events),
        0 <= k < actions.len(),
        actions[k] matches ActionView::Rename { to, .. } && to == crate::destination::candidate(
            crate::layout::organized(r),
            n,
        ),
        1 <= m < n,
    ensures
        crate::moves::taken_before(crate::layout::organized(r), actions, events, m, k),
{
    runs_rename_to_a_free_path(r, actions, events, k);
    runs_stay_in_place(r, actions, events, k - 1);
    let attempt = actions[k - 1]->attempt;
    if attempt < n {
        crate::destination::candidates_of_a_track_differ(r, attempt, n);
    } else if n < attempt {
        crate::destination::candidates_of_a_track_differ(r, n, attempt);
    }
    runs_keep_the_order(r, actions, events, k - 1);
    let j = choose|j: int| 0 <= j < k - 1 && #[trigger] tagged_at(r, actions, events, j);
    tagged_runs_are_moves(r, actions, events, j);
    crate::moves::moves_take_the_lowest_free_number(
        crate::organize::capture_of(r),
        crate::layout::organized(r),
        actions.skip(j + 1),
        events.skip(j + 1),
        m,
        k - j - 1,
    );
    taken_in_the_rest_is_taken(r, actions, events, m, j + 1, k);
}

/// No run overwrites a file that it saw: the capture is renamed only to a path that was just seen
/// not to exist.
pub proof fn runs_rename_to_a_free_path(
    r: TagRequestView,
    actions: Seq<ActionView>,
    events: Seq<EventView>,
    k: int,
)
    requires
        is_run(r, actions, events),
        0 <= k < actions.len(),
        actions[k] is Rename,
    ensures
        k > 0,
        actions[k - 1] matches ActionView::CheckDestination { path, .. } && path
            == actions[k]->Rename_to,
        events[k - 1] == (EventView::DestinationChecked { exists: false }),
{
    assert(k > 0);
    runs_stay_in_place(r, actions, events, k - 1);
    assert(crate::organize::answers(actions[k - 1], events[k - 1]));
}

/// A run gives up the search for a free path only once every candidate was seen to exist.
pub proof fn runs_search_until_all_are_taken(
    r: TagRequestView,
    actions: Seq<ActionView>,
    events: Seq<EventView>,
    n: nat,
    k: int,
)
    requires
        is_run(r, actions, events),
        0 <= k < actions.len(),
        actions[k] matches ActionView::Fail { error } && error is NoNameFree,
        1 <= n <= crate::destination::LAST_ATTEMPT,
    ensures
        crate::moves::taken_before(crate::layout::organized(r), actions, events, n, k),
{
    assert(k > 0);
    assert(crate::organize::answers(actions[k - 1], events[k - 1]));
    assert(actions[k - 1] is CheckDestination);
    runs_keep_the_order(r, actions, events, k - 1);
    let j = choose|j: int| 0 <= j < k - 1 && #[trigger] tagged_at(r, actions, events, j);
    tagged_runs_are_moves(r, actions, events, j);
    crate::moves::moves_search_until_all_are_taken(
        crate::organize::capture_of(r),
        crate::layout::organized(r),
        actions.skip(j + 1),
        events.skip(j + 1),
        n,
        k - j - 1,
    );
    taken_in_the_rest_is_taken(r, actions, events, n, j + 1, k);
}

/// The tags are written with the cover that was just fetched from the URL of the request, and
/// with none where the request has no URL.
pub proof fn runs_embed_the_cover_that_was_fetched(
    r: TagRequestView,
    actions: Seq<ActionView>,
    events: Seq<EventView>,
    k: int,
)
    requires
        is_run(r, actions, events),
        0 <= k < actions.len(),
        actions[k] is WriteTags,
    ensures
        match r.cover_url {
            Some(url) => {
                &&& k > 0
                &&& actions[k - 1] == (ActionView::FetchCover { url })
                &&& events[k - 1] == (EventView::CoverFetched {
                    cover: actions[k]->WriteTags_cover,
                })
            },
            None => actions[k]->WriteTags_cover is None,
        },
{
    assert(k > 0);
    runs_stay_in_place(r, actions, events, k - 1);
    assert(crate::organize::answers(actions[k - 1], events[k - 1]));
}

/// Only a rename that failed is followed by a copy, of the same file to the same path, which was
/// seen not to exist.
pub proof fn runs_copy_only_after_a_failed_rename(
    r: TagRequestView,
    actions: Seq<ActionView>,
    events: Seq<EventView>,
    k: int,
)
    requires
        is_run(r, actions, events),
        0 <= k < actions.len(),
        actions[k] is Copy,
    ensures
        k > 0,
        actions[k - 1] == (ActionView::Rename {
            from: actions[k]->Copy_from,
            to: actions[k]->Copy_to,
        }),
        events[k - 1] is Failed,
        k > 1,
        actions[k - 2] matches ActionView::CheckDestination { path, .. } && path
            == actions[k]->Copy_to,
        events[k - 2] == (EventView::DestinationChecked { exists: false }),
{
    assert(k > 0);
    assert(crate::organize::answers(actions[k - 1], events[k - 1]));
    runs_rename_to_a_free_path(r, actions, events, k - 1);
}

/// The capture is removed only once it was copied.
pub proof fn runs_remove_only_what_was_copied(
    r: TagRequestView,
    actions: Seq<ActionView>,
    events: Seq<EventView>,
    k: int,
)
    requires
        is_run(r, actions, events),
        0 <= k < actions.len(),
        actions[k] is Remove,
    ensures
        k > 0,
        actions[k - 1] == (ActionView::Copy {
            from: actions[k]->Remove_path,
            to: actions[k]->Remove_to,
        }),
        events[k - 1] is Done,
{
    assert(k > 0);
    assert(crate::organize::answers(actions[k - 1], events[k - 1]));
}

/// A run that finishes has moved the capture to the path that it finishes with: it was renamed to
/// it, or copied to it and then removed.
pub proof fn finished_runs_have_moved_the_capture(
    r: TagRequestView,
    actions: Seq<ActionView>,
    events: Seq<EventView>,
    k: int,
)
    requires
        is_run(r, actions, events),
        0 <= k < actions.len(),
        actions[k] is Finish,
    ensures
        ({
            let capture = crate::organize::capture_of(r);
            let to = actions[k]->Finish_path;
            ||| {
                &&& k > 0
                &&& actions[k - 1] == (ActionView::Rename { from: capture, to })
                &&& events[k - 1] is Done
            }
            ||| {
                &&& k > 1
                &&& actions[k - 2] == (ActionView::Copy { from: capture, to })
                &&& events[k - 2] is Done
                &&& actions[k - 1] == (ActionView::Remove { path: capture, to })
                &&& events[k - 1] is Done
            }
        }),
{
    assert(k > 0);
    assert(crate::organize::answers(actions[k - 1], events[k - 1]));
    runs_stay_in_place(r, actions, events, k - 1);
    if actions[k - 1] is Remove {
        runs_remove_only_what_was_copied(r, actions, events, k - 1);
    }
}

/// A run that fails has left the capture where it was: no rename and no removal succeeded.
pub proof fn failed_runs_have_kept_the_capture(
    r: TagRequestView,
    actions: Seq<ActionView>,
    events: Seq<EventView>,
    j: int,
    k: int,
)
    requires
        is_run(r, actions, events),
        0 <= j < k < actions.len(),
        actions[k] is Fail,
    ensures
        actions[j] is Rename || actions[j] is Remove ==> events[j] is Failed,
{
    assert(crate::organize::answers(actions[j], events[j]));
    if j + 1 < k {
        assert(crate::organize::answers(actions[j + 1], events[j + 1]));
    }
}

/// How many more actions can follow an action, at most, but for the wait for the capture.
pub open spec fn remaining(action: ActionView) -> int {
    let last = crate::destination::LAST_ATTEMPT as int;
    match action {
        ActionView::CheckCapture { .. } => last + 7,
        ActionView::Pause { .. } => last + 7,
        ActionView::FetchCover { .. } => last + 6,
        ActionView::WriteTags { .. } => last + 5,
        ActionView::CreateDirectory { .. } => last + 4,
        ActionView::CheckDestination { attempt, .. } => last - attempt + 4,
        ActionView::Rename { .. } => 3,
        ActionView::Copy { .. } => 2,
        ActionView::Remove { .. } => 1,
        ActionView::Finish { .. } => 0,
        ActionView::Fail { .. } => 0,
    }
}

/// Every run ends once the wait for the capture is over: each action leads to one with fewer to
/// follow, and only a capture that does not exist yet, in time, is waited for.
pub proof fn runs_come_to_an_end(
    r: TagRequestView,
    action: ActionView,
    event: EventView,
)
    requires
        crate::organize::answers(action, event),
    ensures
        ({
            let next = crate::organize::next_action(r, action, event);
            &&& 0 <= remaining(next)
            &&& action is Pause ==> next == crate::organize::first_action(r)
            &&& !(action is Pause) && remaining(next) >= remaining(action) ==> {
                &&& action is CheckCapture
                &&& event matches EventView::CaptureChecked {
                    exists,
                    elapsed_millis,
                } && !exists && elapsed_millis < crate::organize::CAPTURE_WAIT_MILLIS
            }
        }),
{
}

/// A run fails only for cause, and tells it: directly before, the capture was missing after five
/// minutes, could not be read or written, or the move failed.
pub proof fn runs_fail_only_for_cause(
    r: TagRequestView,
    actions: Seq<ActionView>,
    events: Seq<EventView>,
    k: int,
)
    requires
        is_run(r, actions, events),
        0 <= k < actions.len(),
        actions[k] is Fail,
    ensures
        k > 0,
        match actions[k]->error {
            OrganizeErrorView::CaptureTimedOut { path } => {
                &&& path == crate::request::capture_path_of(r.output_root, r.track_id)
                &&& actions[k - 1] == (ActionView::CheckCapture { path })
                &&& events[k - 1] matches EventView::CaptureChecked { exists, elapsed_millis }
                    && !exists && elapsed_millis >= 300_000
            },
            OrganizeErrorView::CaptureUnreadable { reason } => {
                &&& actions[k - 1] is WriteTags
                &&& events[k - 1] == (EventView::Unreadable { reason })
            },
            OrganizeErrorView::TagsNotWritten { reason } => {
                &&& actions[k - 1] is WriteTags
                &&& events[k - 1] == (EventView::Failed { reason })
            },
            OrganizeErrorView::DirectoryNotCreated { path, reason } => {
                &&& actions[k - 1] == (ActionView::CreateDirectory { path })
                &&& events[k - 1] == (EventView::Failed { reason })
            },
            OrganizeErrorView::NoNameFree { path } => {
                &&& path == crate::layout::organized(r).path
                &&& actions[k - 1] matches ActionView::CheckDestination { attempt, .. } && attempt
                    == u32::MAX
                &&& events[k - 1] == (EventView::DestinationChecked { exists: true })
            },
            OrganizeErrorView::NotCopied { path, reason } => {
                &&& actions[k - 1] matches ActionView::Copy { to, .. } && to == path
                &&& events[k - 1] == (EventView::Failed { reason })
            },
            OrganizeErrorView::SourceNotRemoved { path, reason } => {
                &&& path == crate::request::capture_path_of(r.output_root, r.track_id)
                &&& actions[k - 1] matches ActionView::Remove { path: removed, .. } && removed
                    == path
                &&& events[k - 1] == (EventView::Failed { reason })
            },
        },
{
    assert(k > 0);
    runs_stay_in_place(r, actions, events, k - 1);
    assert(crate::organize::answers(actions[k - 1], events[k - 1]));
}

/// Every rename that failed in a run, for whatever reason, is followed by a copy of the capture to
/// the same path.
pub proof fn runs_copy_after_every_failed_rename(
    r: TagRequestView,
    actions: Seq<ActionView>,
    events: Seq<EventView>,
    k: int,
)
    requires
        is_run(r, actions, events),
        0 <= k < events.len(),
        actions[k] is Rename,
        events[k] is Failed,
    ensures
        actions[k + 1] == (ActionView::Copy {
            from: crate::request::capture_path_of(r.output_root, r.track_id),
            to: actions[k]->Rename_to,
        }),
{
    runs_stay_in_place(r, actions, events, k);
    assert(crate::organize::answers(actions[k], events[k]));
}

} // verus!
