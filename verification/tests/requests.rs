use ogg_library::request::{
    enrich, first_lookup, AlbumDetails, Reply, TagRequest, Track, TrackDetails,
};

fn track() -> Track {
    Track {
        id: Some("abc123".into()),
        title: "My Song".into(),
        artists: vec!["Artist A".into(), "Artist B".into()],
        album: Some("Great Album".into()),
        album_artists: vec!["Album Artist".into()],
        track_number: 3,
        disc_number: 2,
        cover_url: Some("https://example.org/cover".into()),
    }
}

fn request() -> TagRequest {
    TagRequest::from_track(&track(), "/music".to_string()).unwrap()
}

#[test]
fn a_request_carries_what_the_track_carries() {
    let r = request();
    assert_eq!(r.track_id, "abc123");
    assert_eq!(r.title, "My Song");
    assert_eq!(r.artists, ["Artist A", "Artist B"]);
    assert_eq!(r.album.as_deref(), Some("Great Album"));
    assert_eq!(r.album_artists, ["Album Artist"]);
    assert_eq!(r.track_number, 3);
    assert_eq!(r.disc_number, 2);
    assert_eq!(r.date, None);
    assert!(r.genres.is_empty());
    assert_eq!(r.isrc, None);
    assert_eq!(r.cover_url.as_deref(), Some("https://example.org/cover"));
    assert_eq!(r.output_root, "/music");
}

#[test]
fn a_local_file_has_no_request() {
    let mut t = track();
    t.id = None;
    assert!(TagRequest::from_track(&t, "/music".to_string()).is_none());
}

#[test]
fn the_capture_stands_in_the_root() {
    assert_eq!(request().capture_path(), "/music/capture_abc123.ogg");
    let mut r = request();
    r.output_root = String::new();
    assert_eq!(r.capture_path(), "capture_abc123.ogg");
}

fn details() -> TrackDetails {
    TrackDetails {
        external_ids: vec![
            ("ean".to_string(), "1".to_string()),
            ("isrc".to_string(), "USABC1234567".to_string()),
        ],
        release_date: Some("2019-03-01".to_string()),
        album_id: Some("album".to_string()),
    }
}

fn album() -> AlbumDetails {
    AlbumDetails {
        genres: vec!["Rock".to_string(), "Pop".to_string()],
        release_date: "2020".to_string(),
    }
}

#[test]
fn the_track_is_looked_up_first_and_its_album_once() {
    let mut r = request();
    assert_eq!(first_lookup(&r), "abc123");
    // The album is looked up even where nothing is left to fill in.
    r.date = Some("1999".to_string());
    r.isrc = Some("X".to_string());
    r.genres = vec!["Jazz".to_string()];
    assert_eq!(enrich(&mut r, &Reply::Track(details())).as_deref(), Some("album"));
    assert_eq!(enrich(&mut r, &Reply::Album(album())), None);
    assert_eq!(first_lookup(&r), "abc123");
}

#[test]
fn enriching_fills_in_what_is_not_known() {
    let mut r = request();
    assert_eq!(enrich(&mut r, &Reply::Track(details())).as_deref(), Some("album"));
    assert_eq!(r.isrc.as_deref(), Some("USABC1234567"));
    assert_eq!(r.date.as_deref(), Some("2019-03-01"));
    assert!(r.genres.is_empty());
    assert_eq!(enrich(&mut r, &Reply::Album(album())), None);
    assert_eq!(r.genres, ["Rock", "Pop"]);
    assert_eq!(r.date.as_deref(), Some("2019-03-01"));
    assert_eq!(r.title, "My Song");
}

#[test]
fn the_date_of_the_album_is_the_fallback() {
    let mut r = request();
    let mut d = details();
    d.release_date = None;
    d.external_ids.clear();
    enrich(&mut r, &Reply::Track(d));
    assert_eq!(r.date, None);
    assert_eq!(r.isrc, None);
    enrich(&mut r, &Reply::Album(album()));
    assert_eq!(r.date.as_deref(), Some("2020"));
}

#[test]
fn enriching_keeps_what_is_known_already() {
    let mut r = request();
    r.date = Some("1999".to_string());
    r.isrc = Some("X".to_string());
    r.genres = vec!["Jazz".to_string()];
    enrich(&mut r, &Reply::Track(details()));
    enrich(&mut r, &Reply::Album(album()));
    assert_eq!(r.date.as_deref(), Some("1999"));
    assert_eq!(r.isrc.as_deref(), Some("X"));
    assert_eq!(r.genres, ["Jazz"]);
}

#[test]
fn a_failed_lookup_changes_nothing() {
    let mut r = request();
    assert_eq!(enrich(&mut r, &Reply::Unavailable), None);
    assert_eq!(format!("{r:?}"), format!("{:?}", request()));
    let mut d = details();
    d.album_id = None;
    assert_eq!(enrich(&mut r, &Reply::Track(d)), None);
}

#[test]
fn the_order_of_external_ids_does_not_matter() {
    let mut r = request();
    let mut d = details();
    d.external_ids.reverse();
    enrich(&mut r, &Reply::Track(d));
    assert_eq!(r.isrc.as_deref(), Some("USABC1234567"));
}
