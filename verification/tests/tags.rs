use lofty::file::{FileType, TaggedFile, TaggedFileExt};
use lofty::picture::{MimeType, PictureType};
use lofty::properties::FileProperties;
use lofty::tag::{Accessor, ItemKey, Tag, TagType};

use ogg_library::cover::{cover_from_response, CoverArt, ImageFormat, PictureKind};
use ogg_library::file::retag;
use ogg_library::request::TagRequest;
use ogg_library::tag::build_tag;

fn full() -> TagRequest {
    TagRequest {
        track_id: "abc123".into(),
        title: "My Song".into(),
        artists: vec!["Artist A".into(), "Artist B".into()],
        album: Some("Great Album".into()),
        album_artists: vec!["Album Artist".into(), "Another".into()],
        track_number: 3,
        disc_number: 1,
        date: Some("2019".into()),
        genres: vec!["Rock".into(), "Pop".into()],
        isrc: Some("USABC1234567".into()),
        cover_url: None,
        output_root: "/music".into(),
    }
}

fn items(tag: &Tag) -> Vec<(ItemKey, String)> {
    tag.items()
        .map(|item| (item.key(), item.value().text().unwrap().to_string()))
        .collect()
}

#[test]
fn a_tag_holds_everything_that_is_known() {
    let tag = build_tag(&full(), None);
    assert_eq!(tag.tag_type(), TagType::VorbisComments);
    assert_eq!(
        items(&tag),
        [
            (ItemKey::TrackTitle, "My Song".to_string()),
            (ItemKey::AlbumTitle, "Great Album".to_string()),
            (ItemKey::TrackNumber, "3".to_string()),
            (ItemKey::DiscNumber, "1".to_string()),
            (ItemKey::RecordingDate, "2019".to_string()),
            (ItemKey::TrackArtist, "Artist A".to_string()),
            (ItemKey::TrackArtist, "Artist B".to_string()),
            (ItemKey::AlbumArtist, "Album Artist".to_string()),
            (ItemKey::AlbumArtist, "Another".to_string()),
            (ItemKey::Genre, "Rock".to_string()),
            (ItemKey::Genre, "Pop".to_string()),
            (ItemKey::Isrc, "USABC1234567".to_string()),
        ]
    );
    assert!(tag.pictures().is_empty());
    assert_eq!(tag.title().as_deref(), Some("My Song"));
    assert_eq!(tag.track(), Some(3));
    assert_eq!(tag.disk(), Some(1));
}

#[test]
fn every_field_has_its_vorbis_name() {
    let tag = build_tag(&full(), None);
    let names: Vec<_> = tag
        .items()
        .map(|item| item.key().map_key(TagType::VorbisComments).unwrap())
        .collect();
    assert_eq!(
        names,
        [
            "TITLE", "ALBUM", "TRACKNUMBER", "DISCNUMBER", "DATE", "ARTIST", "ARTIST",
            "ALBUMARTIST", "ALBUMARTIST", "GENRE", "GENRE", "ISRC",
        ]
    );
}

#[test]
fn a_tag_leaves_out_what_is_not_known() {
    let request = TagRequest {
        artists: vec![],
        album: None,
        album_artists: vec![],
        track_number: 0,
        disc_number: -1,
        date: None,
        genres: vec![],
        isrc: None,
        ..full()
    };
    let tag = build_tag(&request, None);
    assert_eq!(items(&tag), [(ItemKey::TrackTitle, "My Song".to_string())]);
}

#[test]
fn large_numbers_are_written_out() {
    let request = TagRequest { track_number: u32::MAX, disc_number: i32::MAX, ..full() };
    let tag = build_tag(&request, None);
    assert_eq!(tag.get_string(ItemKey::TrackNumber), Some("4294967295"));
    assert_eq!(tag.get_string(ItemKey::DiscNumber), Some("2147483647"));
}

#[test]
fn the_cover_is_embedded() {
    for (format, mime) in [
        (ImageFormat::Png, MimeType::Png),
        (ImageFormat::Jpeg, MimeType::Jpeg),
        (ImageFormat::Gif, MimeType::Gif),
        (ImageFormat::Bmp, MimeType::Bmp),
        (ImageFormat::Tiff, MimeType::Tiff),
    ] {
        let art = CoverArt { kind: PictureKind::CoverFront, format, data: vec![1, 2, 3] };
        let tag = build_tag(&full(), Some(art));
        assert_eq!(tag.pictures().len(), 1);
        assert_eq!(tag.pictures()[0].pic_type(), PictureType::CoverFront);
        assert_eq!(tag.pictures()[0].mime_type(), Some(&mime));
        assert_eq!(tag.pictures()[0].description(), None);
        assert_eq!(tag.pictures()[0].data(), [1, 2, 3]);
    }
    let art = CoverArt { kind: PictureKind::Other, format: ImageFormat::Png, data: vec![] };
    let tag = build_tag(&full(), Some(art));
    assert_eq!(tag.pictures()[0].pic_type(), PictureType::Other);
}

fn png() -> Vec<u8> {
    vec![0x89, b'P', b'N', b'G', 0x0d, 0x0a, 0x1a, 0x0a, 7]
}

#[test]
fn the_bytes_tell_the_format() {
    let other = Some("text/html".to_string());
    for (data, format) in [
        (png(), ImageFormat::Png),
        (vec![0xff, 0xd8, 0, 0, 0, 0, 0, 0], ImageFormat::Jpeg),
        (b"GIF87a..".to_vec(), ImageFormat::Gif),
        (b"GIF89a..".to_vec(), ImageFormat::Gif),
        (b"BM......".to_vec(), ImageFormat::Bmp),
        (b"II*\0....".to_vec(), ImageFormat::Tiff),
        (b"MM\0*....".to_vec(), ImageFormat::Tiff),
    ] {
        let cover = cover_from_response(true, data.clone(), other.clone()).unwrap();
        assert_eq!(cover.format, format);
        assert_eq!(cover.kind, PictureKind::CoverFront);
        assert_eq!(cover.data, data);
        let named = cover_from_response(true, data, Some("image/png".to_string())).unwrap();
        assert_eq!(named.format, format);
    }
}

#[test]
fn the_content_type_is_the_fallback() {
    for data in [
        b"GIF88a..".to_vec(),
        b"........".to_vec(),
        vec![0x89, b'P', b'N', b'G', 0, 0, 0, 0],
        b"MM*\0....".to_vec(),
    ] {
        let format = |mime: Option<&str>| {
            cover_from_response(true, data.clone(), mime.map(|m| m.to_string())).unwrap().format
        };
        assert_eq!(format(Some("image/png")), ImageFormat::Png);
        assert_eq!(format(Some("image/jpeg")), ImageFormat::Jpeg);
        assert_eq!(format(Some("image/PNG")), ImageFormat::Jpeg);
        assert_eq!(format(Some("image/gif")), ImageFormat::Jpeg);
        assert_eq!(format(None), ImageFormat::Jpeg);
    }
}

#[test]
fn a_short_response_is_no_cover() {
    assert!(cover_from_response(true, vec![], None).is_none());
    assert!(cover_from_response(true, png()[..7].to_vec(), Some("image/png".to_string())).is_none());
    assert!(cover_from_response(true, png()[..8].to_vec(), None).is_some());
}

#[test]
fn an_error_status_yields_no_cover() {
    let mime = Some("image/png".to_string());
    assert!(cover_from_response(true, png(), mime.clone()).is_some());
    assert!(cover_from_response(false, png(), mime).is_none());
    assert!(cover_from_response(false, b"<html>Not Found</html>".to_vec(), None).is_none());
}

fn titled(tag_type: TagType, title: &str) -> Tag {
    let mut tag = Tag::new(tag_type);
    tag.set_title(title.to_string());
    tag
}

fn file(file_type: FileType, tags: Vec<Tag>) -> TaggedFile {
    TaggedFile::new(file_type, FileProperties::default(), tags)
}

fn titles(file: &TaggedFile) -> Vec<(TagType, String)> {
    file.tags()
        .iter()
        .map(|tag| (tag.tag_type(), tag.title().unwrap().to_string()))
        .collect()
}

#[test]
fn retagging_replaces_the_comments_of_a_file() {
    for file_type in [FileType::Vorbis, FileType::Opus, FileType::Speex, FileType::Flac] {
        let mut f = file(file_type, vec![titled(TagType::VorbisComments, "Old")]);
        let art = CoverArt { kind: PictureKind::CoverFront, format: ImageFormat::Png, data: png() };
        retag(&mut f, &full(), Some(art));
        assert_eq!(f.file_type(), file_type);
        assert_eq!(f.tags().len(), 1);
        assert_eq!(items(&f.tags()[0]), items(&build_tag(&full(), None)));
        assert_eq!(f.tags()[0].pictures()[0].data(), png());
        // The later of two tags stays.
        retag(&mut f, &TagRequest { title: "Other".into(), ..full() }, None);
        assert_eq!(titles(&f), [(TagType::VorbisComments, "Other".to_string())]);
        assert!(f.tags()[0].pictures().is_empty());
    }
}

#[test]
fn retagging_a_file_without_comments_adds_them() {
    let mut f = file(FileType::Vorbis, vec![]);
    retag(&mut f, &full(), None);
    assert_eq!(titles(&f), [(TagType::VorbisComments, "My Song".to_string())]);
}

#[test]
fn retagging_keeps_other_tags_of_a_file() {
    let mut f = file(
        FileType::Flac,
        vec![
            titled(TagType::VorbisComments, "Old"),
            titled(TagType::Id3v2, "Two"),
            titled(TagType::VorbisComments, "Older"),
        ],
    );
    retag(&mut f, &full(), None);
    // The first of two tags of comments leaves.
    assert_eq!(
        titles(&f),
        [
            (TagType::Id3v2, "Two".to_string()),
            (TagType::VorbisComments, "Older".to_string()),
            (TagType::VorbisComments, "My Song".to_string()),
        ]
    );
}

#[test]
fn files_that_hold_no_comments_stay_as_they_are() {
    for file_type in [
        FileType::Aac,
        FileType::Aiff,
        FileType::Ape,
        FileType::Mpeg,
        FileType::Mp4,
        FileType::Mpc,
        FileType::Wav,
        FileType::WavPack,
        FileType::Custom("unregistered"),
    ] {
        let mut f = file(file_type, vec![titled(TagType::Id3v2, "Old")]);
        retag(&mut f, &full(), None);
        assert_eq!(f.file_type(), file_type);
        assert_eq!(titles(&f), [(TagType::Id3v2, "Old".to_string())]);
    }
}
