//! The steps from a finished capture to a tagged file in the library.
//!
//! The caller performs an [`Action`], reports what came of it as an [`Event`], and gets the next
//! action, from [`begin`] until [`Action::Finish`] or [`Action::Fail`].

use vstd::prelude::*;

use crate::cover::{CoverArt, CoverArtView};
use crate::destination::{unique_destination, DestinationStep, DestinationStepView};
use crate::layout::organized_destination;
use crate::path::{Destination, DestinationView};
use crate::request::{TagRequest, TagRequestView};

verus! {

/// How long to wait for the capture file before giving up: five minutes.
pub const CAPTURE_WAIT_MILLIS: u64 = 300_000;

/// How long to pause between two looks for the capture file.
pub const CAPTURE_POLL_MILLIS: u64 = 250;

/// Why a capture was not tagged or not organized.
#[derive(Clone, Debug)]
pub enum OrganizeError {
    /// The capture file did not appear in time.
    CaptureTimedOut { path: String },
    /// The capture file could not be read for tagging.
    CaptureUnreadable { reason: String },
    /// The tags could not be written.
    TagsNotWritten { reason: String },
    /// The destination directory could not be created.
    DirectoryNotCreated { path: String, reason: String },
    /// No name for the destination is free.
    NoNameFree { path: String },
    /// The capture could not be copied to the destination.
    NotCopied { path: String, reason: String },
    /// The capture was copied, but the source could not be removed.
    SourceNotRemoved { path: String, reason: String },
}

/// What to do next.
#[derive(Clone, Debug)]
pub enum Action {
    /// See whether the capture file exists, and how long the wait has taken.
    CheckCapture { path: String },
    /// Sleep.
    Pause { millis: u64 },
    /// Download the cover; that it fails does not matter.
    FetchCover { url: String },
    /// Write the tags, with the cover that was fetched, if any.
    WriteTags { path: String, cover: Option<CoverArt> },
    /// Create a directory and its parents.
    CreateDirectory { path: String },
    /// See whether a file exists.
    CheckDestination { attempt: u32, path: String },
    /// Rename a file.
    Rename { from: String, to: String },
    /// Copy a file.
    Copy { from: String, to: String },
    /// Remove the file `path`, which was copied to `to`.
    Remove { path: String, to: String },
    /// Nothing: the tagged capture stands at `path`.
    Finish { path: String },
    /// Nothing: the capture was given up.
    Fail { error: OrganizeError },
}

/// What came of an [`Action`].
#[derive(Clone, Debug)]
pub enum Event {
    CaptureChecked { exists: bool, elapsed_millis: u64 },
    Paused,
    /// The cover, where the download gave one.
    CoverFetched { cover: Option<CoverArt> },
    DestinationChecked { exists: bool },
    /// The action succeeded.
    Done,
    /// The file to tag could not be read.
    Unreadable { reason: String },
    /// The action failed.
    Failed { reason: String },
}

/// The contents of an [`OrganizeError`].
#[verifier::ext_equal]
pub enum OrganizeErrorView {
    CaptureTimedOut { path: Seq<char> },
    CaptureUnreadable { reason: Seq<char> },
    TagsNotWritten { reason: Seq<char> },
    DirectoryNotCreated { path: Seq<char>, reason: Seq<char> },
    NoNameFree { path: Seq<char> },
    NotCopied { path: Seq<char>, reason: Seq<char> },
    SourceNotRemoved { path: Seq<char>, reason: Seq<char> },
}

/// The contents of an [`Action`].
#[verifier::ext_equal]
pub enum ActionView {
    CheckCapture { path: Seq<char> },
    Pause { millis: nat },
    FetchCover { url: Seq<char> },
    WriteTags { path: Seq<char>, cover: Option<CoverArtView> },
    CreateDirectory { path: Seq<char> },
    CheckDestination { attempt: nat, path: Seq<char> },
    Rename { from: Seq<char>, to: Seq<char> },
    Copy { from: Seq<char>, to: Seq<char> },
    Remove { path: Seq<char>, to: Seq<char> },
    Finish { path: Seq<char> },
    Fail { error: OrganizeErrorView },
}

/// The contents of an [`Event`].
#[verifier::ext_equal]
pub enum EventView {
    CaptureChecked { exists: bool, elapsed_millis: nat },
    Paused,
    CoverFetched { cover: Option<CoverArtView> },
    DestinationChecked { exists: bool },
    Done,
    Unreadable { reason: Seq<char> },
    Failed { reason: Seq<char> },
}

impl View for OrganizeError {
    type V = OrganizeErrorView;

    open spec fn view(&self) -> OrganizeErrorView {
        match self {
            OrganizeError::CaptureTimedOut { path } => OrganizeErrorView::CaptureTimedOut {
                path: path@,
            },
            OrganizeError::CaptureUnreadable { reason } => OrganizeErrorView::CaptureUnreadable {
                reason: reason@,
            },
            OrganizeError::TagsNotWritten { reason } => OrganizeErrorView::TagsNotWritten {
                reason: reason@,
            },
            OrganizeError::DirectoryNotCreated {
                path,
                reason,
            } => OrganizeErrorView::DirectoryNotCreated { path: path@, reason: reason@ },
            OrganizeError::NoNameFree { path } => OrganizeErrorView::NoNameFree { path: path@ },
            OrganizeError::NotCopied { path, reason } => OrganizeErrorView::NotCopied {
                path: path@,
                reason: reason@,
            },
            OrganizeError::SourceNotRemoved { path, reason } => OrganizeErrorView::SourceNotRemoved {
                path: path@,
                reason: reason@,
            },
        }
    }
}

impl View for Action {
    type V = ActionView;

    open spec fn view(&self) -> ActionView {
        match self {
            Action::CheckCapture { path } => ActionView::CheckCapture { path: path@ },
            Action::Pause { millis } => ActionView::Pause { millis: *millis as nat },
            Action::FetchCover { url } => ActionView::FetchCover { url: url@ },
            Action::WriteTags { path, cover } => ActionView::WriteTags {
                path: path@,
                cover: crate::cover::optional_cover(*cover),
            },
            Action::CreateDirectory { path } => ActionView::CreateDirectory { path: path@ },
            Action::CheckDestination { attempt, path } => ActionView::CheckDestination {
                attempt: *attempt as nat,
                path: path@,
            },
            Action::Rename { from, to } => ActionView::Rename { from: from@, to: to@ },
            Action::Copy { from, to } => ActionView::Copy { from: from@, to: to@ },
            Action::Remove { path, to } => ActionView::Remove { path: path@, to: to@ },
            Action::Finish { path } => ActionView::Finish { path: path@ },
            Action::Fail { error } => ActionView::Fail { error: error@ },
        }
    }
}

impl View for Event {
    type V = EventView;

    open spec fn view(&self) -> EventView {
        match self {
            Event::CaptureChecked { exists, elapsed_millis } => EventView::CaptureChecked {
                exists: *exists,
                elapsed_millis: *elapsed_millis as nat,
            },
            Event::Paused => EventView::Paused,
            Event::CoverFetched { cover } => EventView::CoverFetched {
                cover: crate::cover::optional_cover(*cover),
            },
            Event::DestinationChecked { exists } => EventView::DestinationChecked {
                exists: *exists,
            },
            Event::Done => EventView::Done,
            Event::Unreadable { reason } => EventView::Unreadable { reason: reason@ },
            Event::Failed { reason } => EventView::Failed { reason: reason@ },
        }
    }
}

/// What an error says. `shown` is its path, if it has one, as it is shown to a reader.
pub open spec fn error_text(error: OrganizeErrorView, shown: Seq<char>) -> Seq<char> {
    match error {
        OrganizeErrorView::CaptureTimedOut { .. } =>
            "timed out after 300s waiting for capture file "@ + shown,
        OrganizeErrorView::CaptureUnreadable { reason } =>
            "could not read capture file for tagging: "@ + reason,
        OrganizeErrorView::TagsNotWritten { reason } =>
            "could not write tags to capture file: "@ + reason,
        OrganizeErrorView::DirectoryNotCreated { reason, .. } =>
            "could not create destination directory "@ + shown + ": "@ + reason,
        OrganizeErrorView::NoNameFree { .. } => "could not find a free name for "@ + shown,
        OrganizeErrorView::NotCopied { reason, .. } =>
            "could not copy capture to "@ + shown + ": "@ + reason,
        OrganizeErrorView::SourceNotRemoved { reason, .. } =>
            "could not remove source capture "@ + shown + ": "@ + reason,
    }
}

/// The path that an error speaks of.
pub open spec fn error_path(error: OrganizeErrorView) -> Option<Seq<char>> {
    match error {
        OrganizeErrorView::CaptureTimedOut { path } => Some(path),
        OrganizeErrorView::CaptureUnreadable { .. } => None,
        OrganizeErrorView::TagsNotWritten { .. } => None,
        OrganizeErrorView::DirectoryNotCreated { path, .. } => Some(path),
        OrganizeErrorView::NoNameFree { path } => Some(path),
        OrganizeErrorView::NotCopied { path, .. } => Some(path),
        OrganizeErrorView::SourceNotRemoved { path, .. } => Some(path),
    }
}

fn sentence(lead: &str, detail: &str) -> (text: String)
    ensures
        text@ == lead@ + detail@,
{
    let mut text = lead.to_owned();
    text.append(detail);
    text
}

fn sentence_on(lead: &str, shown: &str, reason: &str) -> (text: String)
    ensures
        text@ == lead@ + shown@ + ": "@ + reason@,
{
    let mut text = sentence(lead, shown);
    text.append(": ");
    text.append(reason);
    text
}

impl OrganizeError {
    /// The path that the error speaks of, if any.
    pub fn path(&self) -> (path: Option<String>)
        ensures
            crate::text::optional_text(path) == error_path(self@),
    {
        match self {
            OrganizeError::CaptureTimedOut { path } => Some(path.clone()),
            OrganizeError::CaptureUnreadable { .. } => None,
            OrganizeError::TagsNotWritten { .. } => None,
            OrganizeError::DirectoryNotCreated { path, .. } => Some(path.clone()),
            OrganizeError::NoNameFree { path } => Some(path.clone()),
            OrganizeError::NotCopied { path, .. } => Some(path.clone()),
            OrganizeError::SourceNotRemoved { path, .. } => Some(path.clone()),
        }
    }

    /// What the error says. `shown` is its path, if it has one, as it is to be shown.
    pub fn message(&self, shown: &str) -> (text: String)
        ensures
            text@ == error_text(self@, shown@),
    {
        match self {
            OrganizeError::CaptureTimedOut { .. } => sentence(
                "timed out after 300s waiting for capture file ",
                shown,
            ),
            OrganizeError::CaptureUnreadable { reason } => sentence(
                "could not read capture file for tagging: ",
                reason.as_str(),
            ),
            OrganizeError::TagsNotWritten { reason } => sentence(
                "could not write tags to capture file: ",
                reason.as_str(),
            ),
            OrganizeError::DirectoryNotCreated { reason, .. } => sentence_on(
                "could not create destination directory ",
                shown,
                reason.as_str(),
            ),
            OrganizeError::NoNameFree { .. } => sentence("could not find a free name for ", shown),
            OrganizeError::NotCopied { reason, .. } => sentence_on(
                "could not copy capture to ",
                shown,
                reason.as_str(),
            ),
            OrganizeError::SourceNotRemoved { reason, .. } => sentence_on(
                "could not remove source capture ",
                shown,
                reason.as_str(),
            ),
        }
    }
}

/// What to do while waiting for the capture file.
#[derive(Clone, Copy, Debug, PartialEq, Eq, Structural)]
pub enum WaitStep {
    /// The capture is complete.
    Ready,
    /// The wait has taken too long.
    TimedOut,
    /// Sleep, then look again.
    Pause { millis: u64 },
}

/// A file that exists is ready, however long it took; one that does not is waited for until the
/// time is over.
pub open spec fn wait_step(exists: bool, elapsed_millis: nat) -> WaitStep {
    if exists {
        WaitStep::Ready
    } else if elapsed_millis >= CAPTURE_WAIT_MILLIS {
        WaitStep::TimedOut
    } else {
        WaitStep::Pause { millis: CAPTURE_POLL_MILLIS }
    }
}

/// Decides what to do when the capture file was looked for `elapsed_millis` after the wait began.
pub fn wait_for_capture(exists: bool, elapsed_millis: u64) -> (step: WaitStep)
    ensures
        step == wait_step(exists, elapsed_millis as nat),
{
    if exists {
        WaitStep::Ready
    } else if elapsed_millis >= CAPTURE_WAIT_MILLIS {
        WaitStep::TimedOut
    } else {
        WaitStep::Pause { millis: CAPTURE_POLL_MILLIS }
    }
}

/// Whether an event can come of an action.
pub open spec fn answers(action: ActionView, event: EventView) -> bool {
    match action {
        ActionView::CheckCapture { .. } => event is CaptureChecked,
        ActionView::Pause { .. } => event is Paused,
        ActionView::FetchCover { .. } => event is CoverFetched,
        ActionView::WriteTags { .. } => event is Done || event is Unreadable || event is Failed,
        ActionView::CheckDestination { attempt, .. } => {
            &&& 1 <= attempt <= crate::destination::LAST_ATTEMPT
            &&& event is DestinationChecked
        },
        ActionView::CreateDirectory { .. } => event is Done || event is Failed,
        ActionView::Rename { .. } => event is Done || event is Failed,
        ActionView::Copy { .. } => event is Done || event is Failed,
        ActionView::Remove { .. } => event is Done || event is Failed,
        ActionView::Finish { .. } => false,
        ActionView::Fail { .. } => false,
    }
}

/// Whether an action is part of moving a file.
pub open spec fn is_move(action: ActionView) -> bool {
    ||| action is CreateDirectory
    ||| action is CheckDestination
    ||| action is Rename
    ||| action is Copy
    ||| action is Remove
}

/// The first action of a move: to create the directory, where the destination has one.
pub open spec fn first_of_move(dest: DestinationView) -> ActionView {
    match dest.parent {
        Some(parent) => ActionView::CreateDirectory { path: parent },
        None => ActionView::CheckDestination { attempt: 1, path: dest.path },
    }
}

/// The action of a move of `source` to `dest` that follows `action`.
pub open spec fn next_of_move(
    source: Seq<char>,
    dest: DestinationView,
    action: ActionView,
    event: EventView,
) -> ActionView {
    match action {
        ActionView::CreateDirectory { path } => match event {
            EventView::Failed { reason } => ActionView::Fail {
                error: OrganizeErrorView::DirectoryNotCreated { path, reason },
            },
            _ => ActionView::CheckDestination { attempt: 1, path: dest.path },
        },
        ActionView::CheckDestination { attempt, .. } => match crate::destination::destination_step(
            dest,
            attempt,
            event->DestinationChecked_exists,
        ) {
            DestinationStepView::Check {
                attempt: next,
                path,
            } => ActionView::CheckDestination { attempt: next, path },
            DestinationStepView::Use { path } => ActionView::Rename {
                from: source,
                to: path,
            },
            DestinationStepView::NoneFree => ActionView::Fail {
                error: OrganizeErrorView::NoNameFree { path: dest.path },
            },
        },
        ActionView::Rename { from, to } => match event {
            EventView::Failed { .. } => ActionView::Copy { from, to },
            _ => ActionView::Finish { path: to },
        },
        ActionView::Copy { from, to } => match event {
            EventView::Failed { reason } => ActionView::Fail {
                error: OrganizeErrorView::NotCopied { path: to, reason },
            },
            _ => ActionView::Remove { path: from, to },
        },
        ActionView::Remove { path, to } => match event {
            EventView::Failed { reason } => ActionView::Fail {
                error: OrganizeErrorView::SourceNotRemoved { path, reason },
            },
            _ => ActionView::Finish { path: to },
        },
        _ => action,
    }
}

/// Begins a move: creates the directory of `dest`, where it has one.
pub fn begin_move(dest: &Destination) -> (action: Action)
    ensures
        action@ == first_of_move(dest@),
{
    match &dest.parent {
        Some(parent) => Action::CreateDirectory { path: parent.clone() },
        None => Action::CheckDestination { attempt: 1, path: dest.path.clone() },
    }
}

/// Moves `source` to `dest`: creates the directory, looks for a name that does not exist, and
/// renames. Where renaming fails, as it does across filesystems, it copies and then removes. Where
/// every name exists, it fails and leaves them as they are.
pub fn move_file(source: &str, dest: &Destination, action: &Action, event: &Event) -> (next: Action)
    requires
        is_move(action@),
        answers(action@, event@),
    ensures
        next@ == next_of_move(source@, dest@, action@, event@),
{
    match action {
        Action::CreateDirectory { path } => match event {
            Event::Failed { reason } => Action::Fail {
                error: OrganizeError::DirectoryNotCreated {
                    path: path.clone(),
                    reason: reason.clone(),
                },
            },
            _ => Action::CheckDestination { attempt: 1, path: dest.path.clone() },
        },
        Action::CheckDestination { attempt, .. } => {
            let exists = match event {
                Event::DestinationChecked { exists } => *exists,
                _ => false,
            };
            match unique_destination(dest, *attempt, exists) {
                DestinationStep::Check { attempt: next, path } => Action::CheckDestination {
                    attempt: next,
                    path,
                },
                DestinationStep::Use { path } => Action::Rename {
                    from: source.to_owned(),
                    to: path,
                },
                DestinationStep::NoneFree => Action::Fail {
                    error: OrganizeError::NoNameFree { path: dest.path.clone() },
                },
            }
        },
        Action::Rename { from, to } => match event {
            Event::Failed { .. } => Action::Copy { from: from.clone(), to: to.clone() },
            _ => Action::Finish { path: to.clone() },
        },
        Action::Copy { from, to } => match event {
            Event::Failed { reason } => Action::Fail {
                error: OrganizeError::NotCopied { path: to.clone(), reason: reason.clone() },
            },
            _ => Action::Remove { path: from.clone(), to: to.clone() },
        },
        Action::Remove { path, to } => match event {
            Event::Failed { reason } => Action::Fail {
                error: OrganizeError::SourceNotRemoved {
                    path: path.clone(),
                    reason: reason.clone(),
                },
            },
            _ => Action::Finish { path: to.clone() },
        },
        _ => Action::CheckDestination { attempt: 1, path: dest.path.clone() },
    }
}

/// The capture file of a request.
pub open spec fn capture_of(r: TagRequestView) -> Seq<char> {
    crate::request::capture_path_of(r.output_root, r.track_id)
}

/// The first action for a request: to look for the capture.
pub open spec fn first_action(r: TagRequestView) -> ActionView {
    ActionView::CheckCapture { path: capture_of(r) }
}

/// The action for the request `r` that follows `action`: wait for the capture, fetch the cover
/// where there is one, write the tags, and move the file.
pub open spec fn next_action(
    r: TagRequestView,
    action: ActionView,
    event: EventView,
) -> ActionView {
    match action {
        ActionView::CheckCapture { path } => match wait_step(
            event->CaptureChecked_exists,
            event->elapsed_millis,
        ) {
            WaitStep::Ready => match r.cover_url {
                Some(url) => ActionView::FetchCover { url },
                None => ActionView::WriteTags { path: capture_of(r), cover: None },
            },
            WaitStep::TimedOut => ActionView::Fail {
                error: OrganizeErrorView::CaptureTimedOut { path },
            },
            WaitStep::Pause { millis } => ActionView::Pause { millis: millis as nat },
        },
        ActionView::Pause { .. } => ActionView::CheckCapture { path: capture_of(r) },
        ActionView::FetchCover { .. } => ActionView::WriteTags {
            path: capture_of(r),
            cover: event->cover,
        },
        ActionView::WriteTags { .. } => match event {
            EventView::Unreadable { reason } => ActionView::Fail {
                error: OrganizeErrorView::CaptureUnreadable { reason },
            },
            EventView::Failed { reason } => ActionView::Fail {
                error: OrganizeErrorView::TagsNotWritten { reason },
            },
            _ => first_of_move(crate::layout::organized(r)),
        },
        _ => next_of_move(capture_of(r), crate::layout::organized(r), action, event),
    }
}

/// Begins with a request: looks for its capture.
pub fn begin(request: &TagRequest) -> (action: Action)
    ensures
        action@ == first_action(request@),
{
    Action::CheckCapture { path: request.capture_path() }
}

/// Waits for the capture file of a request, then tags it and moves it into the library: takes
/// what came of an action and gives the next one.
pub fn tag_and_organize(request: &TagRequest, action: &Action, event: Event) -> (next: Action)
    requires
        answers(action@, event@),
    ensures
        next@ == next_action(request@, action@, event@),
{
    match action {
        Action::CheckCapture { path } => {
            let (exists, elapsed_millis) = match event {
                Event::CaptureChecked { exists, elapsed_millis } => (exists, elapsed_millis),
                _ => (false, 0),
            };
            match wait_for_capture(exists, elapsed_millis) {
                WaitStep::Ready => match &request.cover_url {
                    Some(url) => Action::FetchCover { url: url.clone() },
                    None => Action::WriteTags { path: request.capture_path(), cover: None },
                },
                WaitStep::TimedOut => Action::Fail {
                    error: OrganizeError::CaptureTimedOut { path: path.clone() },
                },
                WaitStep::Pause { millis } => Action::Pause { millis },
            }
        },
        Action::Pause { .. } => Action::CheckCapture { path: request.capture_path() },
        Action::FetchCover { .. } => {
            let cover = match event {
                Event::CoverFetched { cover } => cover,
                _ => None,
            };
            Action::WriteTags { path: request.capture_path(), cover }
        },
        Action::WriteTags { .. } => match event {
            Event::Unreadable { reason } => Action::Fail {
                error: OrganizeError::CaptureUnreadable { reason },
            },
            Event::Failed { reason } => Action::Fail {
                error: OrganizeError::TagsNotWritten { reason },
            },
            _ => begin_move(&organized_destination(request)),
        },
        _ => move_file(
            request.capture_path().as_str(),
            &organized_destination(request),
            action,
            &event,
        ),
    }
}

/// Every outcome that an action can have is an event that answers it: a look finds the file or
/// not, a download gives a cover or none, and any other work is done or fails, for whatever reason.
pub proof fn every_outcome_is_an_answer(
    text: Seq<char>,
    other: Seq<char>,
    cover: Option<CoverArtView>,
    fetched: Option<CoverArtView>,
    attempt: nat,
    number: nat,
    exists: bool,
    reason: Seq<char>,
)
    ensures
        answers(
            ActionView::CheckCapture { path: text },
            EventView::CaptureChecked { exists, elapsed_millis: number },
        ),
        answers(ActionView::Pause { millis: number }, EventView::Paused),
        answers(ActionView::FetchCover { url: text }, EventView::CoverFetched { cover: fetched }),
        answers(ActionView::WriteTags { path: text, cover }, EventView::Done),
        answers(ActionView::WriteTags { path: text, cover }, EventView::Unreadable { reason }),
        answers(ActionView::WriteTags { path: text, cover }, EventView::Failed { reason }),
        answers(ActionView::CreateDirectory { path: text }, EventView::Done),
        answers(ActionView::CreateDirectory { path: text }, EventView::Failed { reason }),
        1 <= attempt <= u32::MAX ==> answers(
            ActionView::CheckDestination { attempt, path: text },
            EventView::DestinationChecked { exists },
        ),
        answers(ActionView::Rename { from: text, to: other }, EventView::Done),
        answers(ActionView::Rename { from: text, to: other }, EventView::Failed { reason }),
        answers(ActionView::Copy { from: text, to: other }, EventView::Done),
        answers(ActionView::Copy { from: text, to: other }, EventView::Failed { reason }),
        answers(ActionView::Remove { path: text, to: other }, EventView::Done),
        answers(ActionView::Remove { path: text, to: other }, EventView::Failed { reason }),
        is_move(ActionView::CreateDirectory { path: text }),
        is_move(ActionView::CheckDestination { attempt, path: text }),
        is_move(ActionView::Rename { from: text, to: other }),
        is_move(ActionView::Copy { from: text, to: other }),
        is_move(ActionView::Remove { path: text, to: other }),
{
}

/// A capture that exists is ready at any time. One that does not is looked for again after 250
/// milliseconds, until five minutes have passed, and then no more.
pub proof fn captures_are_waited_for_five_minutes(elapsed_millis: nat)
    ensures
        wait_step(true, elapsed_millis) == WaitStep::Ready,
        elapsed_millis < 300_000 ==> wait_step(false, elapsed_millis) == (WaitStep::Pause {
            millis: 250,
        }),
        elapsed_millis >= 300_000 ==> wait_step(false, elapsed_millis) == WaitStep::TimedOut,
{
}

/// A move begins with the directory of its destination, where that has one, and otherwise with a
/// look at the destination. A directory that is there is followed by that look, and one that could
/// not be created ends the move, with the reason.
pub proof fn moves_begin_with_the_directory(
    source: Seq<char>,
    dest: DestinationView,
    path: Seq<char>,
    reason: Seq<char>,
)
    ensures
        match dest.parent {
            Some(parent) => first_of_move(dest) == (ActionView::CreateDirectory { path: parent }),
            None => first_of_move(dest) == (ActionView::CheckDestination {
                attempt: 1,
                path: dest.path,
            }),
        },
        next_of_move(source, dest, ActionView::CreateDirectory { path }, EventView::Done) == (
        ActionView::CheckDestination { attempt: 1, path: dest.path }),
        next_of_move(
            source,
            dest,
            ActionView::CreateDirectory { path },
            EventView::Failed { reason },
        ) == (ActionView::Fail { error: OrganizeErrorView::DirectoryNotCreated { path, reason } }),
{
}

/// A look at a candidate that does not exist is followed by a rename of the source to it; one at a
/// candidate that exists by a look at the next, and only where no number is left by a failure.
pub proof fn looks_lead_to_a_rename_or_the_next_look(
    source: Seq<char>,
    dest: DestinationView,
    attempt: nat,
)
    requires
        1 <= attempt <= u32::MAX,
    ensures
        ({
            let look = ActionView::CheckDestination {
                attempt,
                path: crate::destination::candidate(dest, attempt),
            };
            let free = EventView::DestinationChecked { exists: false };
            let taken = EventView::DestinationChecked { exists: true };
            &&& next_of_move(source, dest, look, free) == (ActionView::Rename {
                from: source,
                to: crate::destination::candidate(dest, attempt),
            })
            &&& attempt < u32::MAX ==> next_of_move(source, dest, look, taken) == (
            ActionView::CheckDestination {
                attempt: attempt + 1,
                path: crate::destination::candidate(dest, attempt + 1),
            })
            &&& attempt == u32::MAX ==> next_of_move(source, dest, look, taken) == (
            ActionView::Fail { error: OrganizeErrorView::NoNameFree { path: dest.path } })
        }),
{
}

/// A rename that is done ends the move. One that failed, for whatever reason, is followed by a copy
/// of the same file to the same path, that by a removal of the file, and that ends the move. A copy
/// or a removal that failed ends the move too, with the path and the reason.
pub proof fn renames_that_fail_are_made_up_for(
    source: Seq<char>,
    dest: DestinationView,
    from: Seq<char>,
    to: Seq<char>,
    reason: Seq<char>,
)
    ensures
        ({
            let failed = EventView::Failed { reason };
            let rename = ActionView::Rename { from, to };
            let copy = ActionView::Copy { from, to };
            let remove = ActionView::Remove { path: from, to };
            &&& next_of_move(source, dest, rename, EventView::Done) == (ActionView::Finish {
                path: to,
            })
            &&& next_of_move(source, dest, rename, failed) == copy
            &&& next_of_move(source, dest, copy, EventView::Done) == remove
            &&& next_of_move(source, dest, copy, failed) == (ActionView::Fail {
                error: OrganizeErrorView::NotCopied { path: to, reason },
            })
            &&& next_of_move(source, dest, remove, EventView::Done) == (ActionView::Finish {
                path: to,
            })
            &&& next_of_move(source, dest, remove, failed) == (ActionView::Fail {
                error: OrganizeErrorView::SourceNotRemoved { path: from, reason },
            })
        }),
{
}

/// A request begins with a look for its capture. A capture that exists has its cover fetched, where
/// the request has a URL, and is tagged at once otherwise. One that does not is looked for again
/// after a pause of 250 milliseconds, and given up after five minutes.
pub proof fn requests_begin_with_the_wait(
    r: TagRequestView,
    path: Seq<char>,
    elapsed_millis: nat,
    millis: nat,
)
    ensures
        ({
            let capture = crate::request::capture_path_of(r.output_root, r.track_id);
            let look = ActionView::CheckCapture { path };
            let found = EventView::CaptureChecked { exists: true, elapsed_millis };
            let missing = EventView::CaptureChecked { exists: false, elapsed_millis };
            &&& first_action(r) == (ActionView::CheckCapture { path: capture })
            &&& match r.cover_url {
                Some(url) => next_action(r, look, found) == (ActionView::FetchCover { url }),
                None => next_action(r, look, found) == (ActionView::WriteTags {
                    path: capture,
                    cover: None,
                }),
            }
            &&& elapsed_millis < 300_000 ==> next_action(r, look, missing) == (ActionView::Pause {
                millis: 250,
            })
            &&& elapsed_millis >= 300_000 ==> next_action(r, look, missing) == (ActionView::Fail {
                error: OrganizeErrorView::CaptureTimedOut { path },
            })
            &&& next_action(r, ActionView::Pause { millis }, EventView::Paused) == (
            ActionView::CheckCapture { path: capture })
        }),
{
}

/// A cover that was fetched, or none, goes into the tags of the capture. Tags that are written are
/// followed by the move to the organized destination. A capture that could not be read or written
/// ends the run, with the reason.
pub proof fn tags_come_before_the_move(
    r: TagRequestView,
    path: Seq<char>,
    url: Seq<char>,
    cover: Option<CoverArtView>,
    reason: Seq<char>,
)
    ensures
        ({
            let tags = ActionView::WriteTags { path, cover };
            &&& next_action(
                r,
                ActionView::FetchCover { url },
                EventView::CoverFetched { cover },
            ) == (ActionView::WriteTags {
                path: crate::request::capture_path_of(r.output_root, r.track_id),
                cover,
            })
            &&& next_action(r, tags, EventView::Done) == first_of_move(crate::layout::organized(r))
            &&& next_action(r, tags, EventView::Unreadable { reason }) == (ActionView::Fail {
                error: OrganizeErrorView::CaptureUnreadable { reason },
            })
            &&& next_action(r, tags, EventView::Failed { reason }) == (ActionView::Fail {
                error: OrganizeErrorView::TagsNotWritten { reason },
            })
        }),
{
}

/// The actions of a move follow each other in a run as they do in any move, from the capture of the
/// request to its organized destination.
pub proof fn runs_move_the_capture(r: TagRequestView, action: ActionView, event: EventView)
    requires
        ({
            ||| action is CreateDirectory
            ||| action is CheckDestination
            ||| action is Rename
            ||| action is Copy
            ||| action is Remove
        }),
    ensures
        next_action(r, action, event) == next_of_move(
            crate::request::capture_path_of(r.output_root, r.track_id),
            crate::layout::organized(r),
            action,
            event,
        ),
{
}

/// Every message begins with what failed and ends with the reason, in full, where there is one. The
/// path stands in between, in full, where the error has one.
pub proof fn messages_tell_path_and_reason(path: Seq<char>, shown: Seq<char>, reason: Seq<char>)
    ensures
        error_text(OrganizeErrorView::CaptureTimedOut { path }, shown)
            == "timed out after 300s waiting for capture file "@ + shown,
        error_text(OrganizeErrorView::CaptureUnreadable { reason }, shown)
            == "could not read capture file for tagging: "@ + reason,
        error_text(OrganizeErrorView::TagsNotWritten { reason }, shown)
            == "could not write tags to capture file: "@ + reason,
        error_text(OrganizeErrorView::DirectoryNotCreated { path, reason }, shown)
            == "could not create destination directory "@ + shown + ": "@ + reason,
        error_text(OrganizeErrorView::NoNameFree { path }, shown)
            == "could not find a free name for "@ + shown,
        error_text(OrganizeErrorView::NotCopied { path, reason }, shown)
            == "could not copy capture to "@ + shown + ": "@ + reason,
        error_text(OrganizeErrorView::SourceNotRemoved { path, reason }, shown)
            == "could not remove source capture "@ + shown + ": "@ + reason,
        error_path(OrganizeErrorView::CaptureTimedOut { path }) == Some(path),
        error_path(OrganizeErrorView::CaptureUnreadable { reason }) is None,
        error_path(OrganizeErrorView::TagsNotWritten { reason }) is None,
        error_path(OrganizeErrorView::DirectoryNotCreated { path, reason }) == Some(path),
        error_path(OrganizeErrorView::NoNameFree { path }) == Some(path),
        error_path(OrganizeErrorView::NotCopied { path, reason }) == Some(path),
        error_path(OrganizeErrorView::SourceNotRemoved { path, reason }) == Some(path),
{
}

/// The view of an action tells its contents as they are.
pub proof fn action_views_are_exact(action: Action)
    ensures
        match action {
            Action::CheckCapture { path } => action@ == (ActionView::CheckCapture { path: path@ }),
            Action::Pause { millis } => action@ == (ActionView::Pause { millis: millis as nat }),
            Action::FetchCover { url } => action@ == (ActionView::FetchCover { url: url@ }),
            Action::WriteTags { path, cover } => match cover {
                Some(art) => action@ == (ActionView::WriteTags {
                    path: path@,
                    cover: Some(art@),
                }),
                None => action@ == (ActionView::WriteTags { path: path@, cover: None }),
            },
            Action::CreateDirectory { path } => action@ == (ActionView::CreateDirectory {
                path: path@,
            }),
            Action::CheckDestination { attempt, path } => action@ == (
            ActionView::CheckDestination { attempt: attempt as nat, path: path@ }),
            Action::Rename { from, to } => action@ == (ActionView::Rename { from: from@, to: to@ }),
            Action::Copy { from, to } => action@ == (ActionView::Copy { from: from@, to: to@ }),
            Action::Remove { path, to } => action@ == (ActionView::Remove { path: path@, to: to@ }),
            Action::Finish { path } => action@ == (ActionView::Finish { path: path@ }),
            Action::Fail { error } => action@ == (ActionView::Fail { error: error@ }),
        },
{
}

/// The view of an event tells its contents as they are.
pub proof fn event_views_are_exact(event: Event)
    ensures
        match event {
            Event::CaptureChecked { exists, elapsed_millis } => event@ == (
            EventView::CaptureChecked { exists, elapsed_millis: elapsed_millis as nat }),
            Event::Paused => event@ is Paused,
            Event::CoverFetched { cover } => match cover {
                Some(art) => event@ == (EventView::CoverFetched { cover: Some(art@) }),
                None => event@ == (EventView::CoverFetched { cover: None }),
            },
            Event::DestinationChecked { exists } => event@ == (EventView::DestinationChecked {
                exists,
            }),
            Event::Done => event@ is Done,
            Event::Unreadable { reason } => event@ == (EventView::Unreadable { reason: reason@ }),
            Event::Failed { reason } => event@ == (EventView::Failed { reason: reason@ }),
        },
{
}

/// The view of an error tells its contents as they are.
pub proof fn error_views_are_exact(error: OrganizeError)
    ensures
        match error {
            OrganizeError::CaptureTimedOut { path } => error@ == (
            OrganizeErrorView::CaptureTimedOut { path: path@ }),
            OrganizeError::CaptureUnreadable { reason } => error@ == (
            OrganizeErrorView::CaptureUnreadable { reason: reason@ }),
            OrganizeError::TagsNotWritten { reason } => error@ == (
            OrganizeErrorView::TagsNotWritten { reason: reason@ }),
            OrganizeError::DirectoryNotCreated { path, reason } => error@ == (
            OrganizeErrorView::DirectoryNotCreated { path: path@, reason: reason@ }),
            OrganizeError::NoNameFree { path } => error@ == (OrganizeErrorView::NoNameFree {
                path: path@,
            }),
            OrganizeError::NotCopied { path, reason } => error@ == (OrganizeErrorView::NotCopied {
                path: path@,
                reason: reason@,
            }),
            OrganizeError::SourceNotRemoved { path, reason } => error@ == (
            OrganizeErrorView::SourceNotRemoved { path: path@, reason: reason@ }),
        },
{
}

} // verus!
