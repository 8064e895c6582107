use ogg_library::cover::{CoverArt, ImageFormat, PictureKind};
use ogg_library::destination::{unique_destination, DestinationStep, LAST_ATTEMPT};
use ogg_library::layout::organized_destination;
use ogg_library::organize::{
    begin, begin_move, move_file, tag_and_organize, wait_for_capture, Action, Event, OrganizeError,
    WaitStep,
};
use ogg_library::path::Destination;
use ogg_library::request::TagRequest;

fn request(cover_url: Option<&str>) -> TagRequest {
    TagRequest {
        track_id: "abc123".into(),
        title: "My Song".into(),
        artists: vec!["Artist A".into()],
        album: Some("Great Album".into()),
        album_artists: vec!["Album Artist".into()],
        track_number: 3,
        disc_number: 1,
        date: None,
        genres: vec![],
        isrc: None,
        cover_url: cover_url.map(|u| u.to_string()),
        output_root: "/music".into(),
    }
}

const CAPTURE: &str = "/music/capture_abc123.ogg";
const DIRECTORY: &str = "/music/Album Artist/Great Album";
const DEST: &str = "/music/Album Artist/Great Album/1.03 - My Song.ogg";
const SECOND: &str = "/music/Album Artist/Great Album/1.03 - My Song (2).ogg";

fn cover() -> CoverArt {
    CoverArt { kind: PictureKind::CoverFront, format: ImageFormat::Gif, data: vec![1, 2, 3] }
}

fn failed(reason: &str) -> Event {
    Event::Failed { reason: reason.to_string() }
}

fn show(action: &Action) -> String {
    format!("{action:?}")
}

/// Searches among files of which `taken` tells which exist.
fn search(dest: &Destination, taken: &dyn Fn(&str) -> bool) -> String {
    let mut attempt = 1;
    let mut path = dest.path.clone();
    loop {
        match unique_destination(dest, attempt, taken(&path)) {
            DestinationStep::Check { attempt: next, path: candidate } => {
                attempt = next;
                path = candidate;
            }
            DestinationStep::Use { path } => return path,
            DestinationStep::NoneFree => panic!("no name is free"),
        }
    }
}

#[test]
fn a_free_destination_is_used() {
    let dest = organized_destination(&request(None));
    assert_eq!(search(&dest, &|_| false), DEST);
}

#[test]
fn taken_names_are_numbered() {
    let dest = organized_destination(&request(None));
    assert_eq!(search(&dest, &|p| p == DEST), SECOND);
    assert_eq!(
        search(&dest, &|p| p == DEST || p == SECOND),
        "/music/Album Artist/Great Album/1.03 - My Song (3).ogg"
    );
    // The search goes on until a name is free.
    for n in [9_999, 10_000, 12_345] {
        let free = format!("{DIRECTORY}/1.03 - My Song ({n}).ogg");
        assert_eq!(search(&dest, &|p| p != free), free);
    }
}

#[test]
fn when_all_names_are_taken_none_is_used() {
    let dest = organized_destination(&request(None));
    assert_eq!(LAST_ATTEMPT, u32::MAX);
    let last = format!("{DIRECTORY}/1.03 - My Song (4294967295).ogg");
    assert!(matches!(
        unique_destination(&dest, LAST_ATTEMPT - 1, true),
        DestinationStep::Check { attempt: LAST_ATTEMPT, path } if path == last
    ));
    assert!(matches!(
        unique_destination(&dest, LAST_ATTEMPT, false),
        DestinationStep::Use { path } if path == last
    ));
    assert!(matches!(unique_destination(&dest, LAST_ATTEMPT, true), DestinationStep::NoneFree));
}

#[test]
fn a_path_without_parts_gets_default_ones() {
    let dest = Destination { path: "..".into(), parent: None, stem: None, extension: None };
    assert_eq!(search(&dest, &|p| p == ".."), "./capture (2).ogg");
    let dest = Destination::in_directory("", "README");
    assert_eq!(search(&dest, &|p| p == "README"), "README (2).ogg");
}

#[test]
fn the_wait_for_a_capture() {
    assert_eq!(wait_for_capture(true, 0), WaitStep::Ready);
    assert_eq!(wait_for_capture(true, u64::MAX), WaitStep::Ready);
    assert_eq!(wait_for_capture(false, 0), WaitStep::Pause { millis: 250 });
    assert_eq!(wait_for_capture(false, 299_999), WaitStep::Pause { millis: 250 });
    assert_eq!(wait_for_capture(false, 300_000), WaitStep::TimedOut);
}

#[test]
fn a_run_without_trouble() {
    let r = request(Some("url"));
    let a = begin(&r);
    assert!(matches!(&a, Action::CheckCapture { path } if path == CAPTURE));
    let a = tag_and_organize(&r, &a, Event::CaptureChecked { exists: false, elapsed_millis: 5 });
    assert!(matches!(a, Action::Pause { millis: 250 }));
    let a = tag_and_organize(&r, &a, Event::Paused);
    assert!(matches!(&a, Action::CheckCapture { path } if path == CAPTURE));
    let a = tag_and_organize(&r, &a, Event::CaptureChecked { exists: true, elapsed_millis: 255 });
    assert!(matches!(&a, Action::FetchCover { url } if url == "url"));
    let a = tag_and_organize(&r, &a, Event::CoverFetched { cover: Some(cover()) });
    assert!(matches!(
        &a,
        Action::WriteTags { path, cover: Some(art) }
            if path == CAPTURE && art.data == [1, 2, 3] && art.format == ImageFormat::Gif
    ));
    let a = tag_and_organize(&r, &a, Event::Done);
    assert!(matches!(&a, Action::CreateDirectory { path } if path == DIRECTORY));
    let a = tag_and_organize(&r, &a, Event::Done);
    assert!(matches!(&a, Action::CheckDestination { attempt: 1, path } if path == DEST));
    let a = tag_and_organize(&r, &a, Event::DestinationChecked { exists: true });
    assert!(matches!(&a, Action::CheckDestination { attempt: 2, path } if path == SECOND));
    let a = tag_and_organize(&r, &a, Event::DestinationChecked { exists: false });
    assert!(matches!(&a, Action::Rename { from, to } if from == CAPTURE && to == SECOND));
    let a = tag_and_organize(&r, &a, Event::Done);
    assert!(matches!(&a, Action::Finish { path } if path == SECOND));
}

#[test]
fn a_track_without_a_cover_is_tagged_at_once() {
    let r = request(None);
    let a = begin(&r);
    let a = tag_and_organize(&r, &a, Event::CaptureChecked { exists: true, elapsed_millis: 0 });
    assert!(matches!(&a, Action::WriteTags { path, cover: None } if path == CAPTURE));
}

#[test]
fn a_cover_that_was_not_found_is_not_waited_for() {
    let r = request(Some("url"));
    let a = Action::FetchCover { url: "url".into() };
    let a = tag_and_organize(&r, &a, Event::CoverFetched { cover: None });
    assert!(matches!(&a, Action::WriteTags { path, cover: None } if path == CAPTURE));
}

#[test]
fn a_failed_rename_is_followed_by_copy_and_remove() {
    let r = request(None);
    let a = Action::Rename { from: CAPTURE.into(), to: DEST.into() };
    let a = tag_and_organize(&r, &a, failed("cross-device"));
    assert!(matches!(&a, Action::Copy { from, to } if from == CAPTURE && to == DEST));
    let a = tag_and_organize(&r, &a, Event::Done);
    assert!(matches!(&a, Action::Remove { path, to } if path == CAPTURE && to == DEST));
    let a = tag_and_organize(&r, &a, Event::Done);
    assert!(matches!(&a, Action::Finish { path } if path == DEST));
}

#[test]
fn a_move_without_a_directory_begins_with_the_search() {
    let dest = Destination { path: "x".into(), parent: None, stem: None, extension: None };
    let a = begin_move(&dest);
    assert!(matches!(&a, Action::CheckDestination { attempt: 1, path } if path == "x"));
    let a = move_file("src", &dest, &a, &Event::DestinationChecked { exists: false });
    assert!(matches!(&a, Action::Rename { from, to } if from == "src" && to == "x"));
}

#[test]
fn a_move_that_fails_keeps_its_source() {
    let dest = Destination::in_directory("d", "x.ogg");
    let a = begin_move(&dest);
    assert!(matches!(&a, Action::CreateDirectory { path } if path == "d"));
    let a = move_file("src", &dest, &a, &Event::Done);
    assert!(matches!(&a, Action::CheckDestination { attempt: 1, path } if path == "d/x.ogg"));
    let a = move_file("src", &dest, &a, &Event::DestinationChecked { exists: true });
    assert!(matches!(&a, Action::CheckDestination { attempt: 2, path } if path == "d/x (2).ogg"));
    let a = move_file("src", &dest, &a, &Event::DestinationChecked { exists: true });
    let a = move_file("src", &dest, &a, &Event::DestinationChecked { exists: false });
    assert!(matches!(&a, Action::Rename { from, to } if from == "src" && to == "d/x (3).ogg"));
    let a = move_file("src", &dest, &a, &failed("cross-device"));
    assert!(matches!(&a, Action::Copy { from, to } if from == "src" && to == "d/x (3).ogg"));
    let gone = move_file("src", &dest, &a, &failed("full"));
    assert!(matches!(
        gone,
        Action::Fail { error: OrganizeError::NotCopied { path, reason } }
            if path == "d/x (3).ogg" && reason == "full"
    ));
    let a = move_file("src", &dest, &a, &Event::Done);
    assert!(matches!(&a, Action::Remove { path, to } if path == "src" && to == "d/x (3).ogg"));
}

fn message(action: &Action, event: Event) -> String {
    match tag_and_organize(&request(None), action, event) {
        Action::Fail { error } => {
            let shown = error.path().map(|p| format!("{p:?}")).unwrap_or_default();
            error.message(&shown)
        }
        other => show(&other),
    }
}

#[test]
fn every_failure_says_what_failed() {
    assert_eq!(
        message(
            &begin(&request(None)),
            Event::CaptureChecked { exists: false, elapsed_millis: 300_000 }
        ),
        "timed out after 300s waiting for capture file \"/music/capture_abc123.ogg\""
    );
    let tags = Action::WriteTags { path: CAPTURE.into(), cover: None };
    assert_eq!(
        message(&tags, Event::Unreadable { reason: "r".into() }),
        "could not read capture file for tagging: r"
    );
    assert_eq!(message(&tags, failed("r")), "could not write tags to capture file: r");
    assert_eq!(
        message(&Action::CreateDirectory { path: "d".into() }, failed("r")),
        "could not create destination directory \"d\": r"
    );
    assert_eq!(
        message(
            &Action::CheckDestination { attempt: LAST_ATTEMPT, path: "d".into() },
            Event::DestinationChecked { exists: true }
        ),
        format!("could not find a free name for {DEST:?}")
    );
    assert_eq!(
        message(&Action::Copy { from: "a".into(), to: "b".into() }, failed("r")),
        "could not copy capture to \"b\": r"
    );
    assert_eq!(
        message(&Action::Remove { path: "a".into(), to: "b".into() }, failed("r")),
        "could not remove source capture \"a\": r"
    );
}

#[test]
fn errors_know_their_path() {
    let error = OrganizeError::NotCopied { path: "b".into(), reason: "r".into() };
    assert_eq!(error.path().as_deref(), Some("b"));
    let error = OrganizeError::NoNameFree { path: "d".into() };
    assert_eq!(error.path().as_deref(), Some("d"));
    let error = OrganizeError::TagsNotWritten { reason: "r".into() };
    assert_eq!(error.path(), None);
}

#[test]
fn candidates_are_different_files_of_one_directory() {
    let dest = organized_destination(&request(None));
    let mut seen = vec![dest.path.clone()];
    for attempt in 1..200 {
        if let DestinationStep::Check { attempt: next, path } =
            unique_destination(&dest, attempt, true)
        {
            assert_eq!(next, attempt + 1);
            assert_eq!(path, format!("{DIRECTORY}/1.03 - My Song ({next}).ogg"));
            assert!(!seen.contains(&path));
            seen.push(path);
        } else {
            panic!("the search is over");
        }
    }
}
