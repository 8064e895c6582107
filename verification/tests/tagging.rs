use ogg_library::layout::organized_destination;
use ogg_library::naming::{sanitize, sanitize_filename};
use ogg_library::request::TagRequest;

fn req() -> TagRequest {
    TagRequest {
        track_id: "abc123".into(),
        title: "My Song".into(),
        artists: vec!["Artist A".into(), "Artist B".into()],
        album: Some("Great Album".into()),
        album_artists: vec!["Album Artist".into()],
        track_number: 3,
        disc_number: 1,
        date: Some("2019".into()),
        genres: vec!["Rock".into()],
        isrc: Some("USABC1234567".into()),
        cover_url: None,
        output_root: "/music".into(),
    }
}

#[test]
fn destination_layout() {
    let dest = organized_destination(&req());
    let s = dest.path.replace('\\', "/");
    assert!(
        s.ends_with("/music/Album Artist/Great Album/1.03 - My Song.ogg"),
        "got {s}"
    );
}

#[test]
fn sanitize_strips_illegal_chars() {
    assert_eq!(sanitize("AC/DC: Live?"), "AC_DC_ Live_");
}

#[test]
fn sanitize_filename_keeps_extension() {
    assert_eq!(sanitize_filename("1.03 - A/B.ogg"), "1.03 - A_B.ogg");
}

#[test]
fn destination_falls_back_to_track_artist_when_no_album_artist() {
    let mut r = req();
    r.album_artists.clear();
    let dest = organized_destination(&r);
    let s = dest.path.replace('\\', "/");
    assert!(s.contains("/music/Artist A/"), "got {s}");
}

#[test]
fn destination_has_its_parts() {
    let dest = organized_destination(&req());
    assert_eq!(dest.path, "/music/Album Artist/Great Album/1.03 - My Song.ogg");
    assert_eq!(dest.parent.as_deref(), Some("/music/Album Artist/Great Album"));
    assert_eq!(dest.stem.as_deref(), Some("1.03 - My Song"));
    assert_eq!(dest.extension.as_deref(), Some("ogg"));
}

#[test]
fn destination_of_a_track_about_which_little_is_known() {
    let mut r = req();
    r.album_artists.clear();
    r.artists.clear();
    r.album = None;
    r.disc_number = 0;
    r.track_number = 0;
    r.title = "...".into();
    let dest = organized_destination(&r);
    assert_eq!(dest.path, "/music/Unknown Artist/Unknown Album/1.00 - _.ogg");
    r.disc_number = -4;
    assert_eq!(organized_destination(&r).path, dest.path);
}

#[test]
fn destination_numbers() {
    let mut r = req();
    r.disc_number = 12;
    r.track_number = 123;
    let dest = organized_destination(&r);
    assert_eq!(dest.stem.as_deref(), Some("12.123 - My Song"));
    r.track_number = u32::MAX;
    r.disc_number = i32::MAX;
    let dest = organized_destination(&r);
    assert_eq!(dest.stem.as_deref(), Some("2147483647.4294967295 - My Song"));
}

#[test]
fn destination_below_roots_of_any_form() {
    let mut r = req();
    let tail = "Album Artist/Great Album/1.03 - My Song.ogg";
    for (root, start) in [("", ""), ("/", "/"), ("/music/", "/music/"), ("rel", "rel/")] {
        r.output_root = root.to_string();
        let expected = format!("{start}{tail}");
        assert_eq!(organized_destination(&r).path, expected);
        let joined = std::path::Path::new(root)
            .join("Album Artist")
            .join("Great Album")
            .join("1.03 - My Song.ogg");
        assert_eq!(std::path::Path::new(&expected), joined.as_path());
    }
}

#[test]
fn destination_sanitizes_every_component() {
    let mut r = req();
    r.album_artists = vec!["AC/DC".into()];
    r.album = Some("Who Made Who?".into());
    r.title = "Hells Bells: Live ".into();
    assert_eq!(
        organized_destination(&r).path,
        "/music/AC_DC/Who Made Who_/1.03 - Hells Bells_ Live.ogg"
    );
}

#[test]
fn destination_of_a_long_title_is_capped_with_its_numbers() {
    let mut r = req();
    r.title = "x".repeat(300);
    let dest = organized_destination(&r);
    assert_eq!(dest.stem.as_deref(), Some(format!("1.03 - {}", "x".repeat(173)).as_str()));
    assert_eq!(dest.extension.as_deref(), Some("ogg"));
    // 173 characters are the most that stand unchanged.
    r.title = "y".repeat(173);
    assert_eq!(
        organized_destination(&r).stem.as_deref(),
        Some(format!("1.03 - {}", "y".repeat(173)).as_str())
    );
}

#[test]
fn destination_stays_below_the_root() {
    let mut r = req();
    r.album_artists = vec![".. .".into()];
    r.album = Some("..".into());
    r.title = "a. .".into();
    assert_eq!(organized_destination(&r).path, "/music/_/_/1.03 - a.ogg");
    // A title that the cap cuts behind a space.
    r.title = format!("{} tail", "x".repeat(172));
    assert_eq!(
        organized_destination(&r).stem.as_deref(),
        Some(format!("1.03 - {}", "x".repeat(172)).as_str())
    );
}
