//! Vorbis comments.

use vstd::prelude::*;

use lofty::picture::{MimeType, Picture, PictureType};
use lofty::tag::{ItemKey, Tag};

use crate::cover::{CoverArt, CoverArtView, ImageFormat, PictureKind};
use crate::request::{TagRequest, TagRequestView};

verus! {

/// The fields that a track is tagged with, each with its Vorbis comment name.
#[derive(Clone, Copy, Debug, PartialEq, Eq, Structural)]
pub enum TagField {
    /// `TITLE`
    TrackTitle,
    /// `ALBUM`
    AlbumTitle,
    /// `TRACKNUMBER`
    TrackNumber,
    /// `DISCNUMBER`
    DiscNumber,
    /// `DATE`
    RecordingDate,
    /// `ARTIST`
    TrackArtist,
    /// `ALBUMARTIST`
    AlbumArtist,
    /// `GENRE`
    Genre,
    /// `ISRC`
    Isrc,
}

/// A tag of the `lofty` crate: a list of items and a list of pictures.
#[verifier::external_type_specification]
#[verifier::external_body]
pub struct ExTag(lofty::tag::Tag);

/// The text items of a tag with one of the keys of [`TagField`], in order.
pub uninterp spec fn tag_items(tag: Tag) -> Seq<(TagField, Seq<char>)>;

/// The pictures of a tag whose type is one of [`PictureKind`] and whose MIME type is one of
/// [`ImageFormat`], in order.
pub uninterp spec fn tag_pictures(tag: Tag) -> Seq<CoverArtView>;

/// Whether a tag holds Vorbis comments.
pub uninterp spec fn holds_vorbis_comments(tag: Tag) -> bool;

/// `items` without those of `field`.
pub open spec fn without(items: Seq<(TagField, Seq<char>)>, field: TagField) -> Seq<
    (TagField, Seq<char>),
> {
    items.filter(|item: (TagField, Seq<char>)| item.0 != field)
}

/// `items` without those of `field`, and then `text` under `field`.
pub open spec fn replaced(
    items: Seq<(TagField, Seq<char>)>,
    field: TagField,
    text: Seq<char>,
) -> Seq<(TagField, Seq<char>)> {
    without(items, field).push((field, text))
}

/// `lofty::tag::Tag::new` for Vorbis comments. The tag is empty.
#[verifier::external_body]
fn new_tag() -> (tag: Tag)
    ensures
        holds_vorbis_comments(tag),
        tag_items(tag) == Seq::<(TagField, Seq<char>)>::empty(),
        tag_pictures(tag) == Seq::<CoverArtView>::empty(),
{
    Tag::new(lofty::tag::TagType::VorbisComments)
}

/// `lofty::tag::Accessor::set_title`, which puts the text in the place of any other title.
#[verifier::external_body]
fn set_title(tag: &mut Tag, title: String)
    requires
        holds_vorbis_comments(*old(tag)),
    ensures
        holds_vorbis_comments(*final(tag)),
        tag_items(*final(tag)) == replaced(tag_items(*old(tag)), TagField::TrackTitle, title@),
        tag_pictures(*final(tag)) == tag_pictures(*old(tag)),
{
    lofty::tag::Accessor::set_title(tag, title)
}

/// `lofty::tag::Accessor::set_album`, which puts the text in the place of any other album title.
#[verifier::external_body]
fn set_album(tag: &mut Tag, album: String)
    requires
        holds_vorbis_comments(*old(tag)),
    ensures
        holds_vorbis_comments(*final(tag)),
        tag_items(*final(tag)) == replaced(tag_items(*old(tag)), TagField::AlbumTitle, album@),
        tag_pictures(*final(tag)) == tag_pictures(*old(tag)),
{
    lofty::tag::Accessor::set_album(tag, album)
}

/// `lofty::tag::Accessor::set_track`, which puts the number, in decimal, in the place of any other
/// track number.
#[verifier::external_body]
fn set_track(tag: &mut Tag, number: u32)
    requires
        holds_vorbis_comments(*old(tag)),
    ensures
        holds_vorbis_comments(*final(tag)),
        tag_items(*final(tag)) == replaced(
            tag_items(*old(tag)),
            TagField::TrackNumber,
            crate::text::decimal(number as nat),
        ),
        tag_pictures(*final(tag)) == tag_pictures(*old(tag)),
{
    lofty::tag::Accessor::set_track(tag, number)
}

/// `lofty::tag::Accessor::set_disk`, which puts the number, in decimal, in the place of any other
/// disc number.
#[verifier::external_body]
fn set_disk(tag: &mut Tag, number: u32)
    requires
        holds_vorbis_comments(*old(tag)),
    ensures
        holds_vorbis_comments(*final(tag)),
        tag_items(*final(tag)) == replaced(
            tag_items(*old(tag)),
            TagField::DiscNumber,
            crate::text::decimal(number as nat),
        ),
        tag_pictures(*final(tag)) == tag_pictures(*old(tag)),
{
    lofty::tag::Accessor::set_disk(tag, number)
}

/// `lofty::tag::Tag::insert_text`, which puts the text in the place of any other items of the
/// field. All fields of [`TagField`] have a Vorbis comment name, so that it is always inserted.
#[verifier::external_body]
fn insert_text(tag: &mut Tag, field: TagField, text: String) -> (inserted: bool)
    requires
        holds_vorbis_comments(*old(tag)),
    ensures
        inserted,
        holds_vorbis_comments(*final(tag)),
        tag_items(*final(tag)) == replaced(tag_items(*old(tag)), field, text@),
        tag_pictures(*final(tag)) == tag_pictures(*old(tag)),
{
    let key = match field {
        TagField::TrackTitle => ItemKey::TrackTitle,
        TagField::AlbumTitle => ItemKey::AlbumTitle,
        TagField::TrackNumber => ItemKey::TrackNumber,
        TagField::DiscNumber => ItemKey::DiscNumber,
        TagField::RecordingDate => ItemKey::RecordingDate,
        TagField::TrackArtist => ItemKey::TrackArtist,
        TagField::AlbumArtist => ItemKey::AlbumArtist,
        TagField::Genre => ItemKey::Genre,
        TagField::Isrc => ItemKey::Isrc,
    };
    tag.insert_text(key, text)
}

/// `lofty::tag::Tag::push` of a text item, which appends it and keeps the other items of the field.
/// All fields of [`TagField`] have a Vorbis comment name, so that it is always pushed.
#[verifier::external_body]
fn push_text(tag: &mut Tag, field: TagField, text: String) -> (pushed: bool)
    requires
        holds_vorbis_comments(*old(tag)),
    ensures
        pushed,
        holds_vorbis_comments(*final(tag)),
        tag_items(*final(tag)) == tag_items(*old(tag)).push((field, text@)),
        tag_pictures(*final(tag)) == tag_pictures(*old(tag)),
{
    let key = match field {
        TagField::TrackTitle => ItemKey::TrackTitle,
        TagField::AlbumTitle => ItemKey::AlbumTitle,
        TagField::TrackNumber => ItemKey::TrackNumber,
        TagField::DiscNumber => ItemKey::DiscNumber,
        TagField::RecordingDate => ItemKey::RecordingDate,
        TagField::TrackArtist => ItemKey::TrackArtist,
        TagField::AlbumArtist => ItemKey::AlbumArtist,
        TagField::Genre => ItemKey::Genre,
        TagField::Isrc => ItemKey::Isrc,
    };
    tag.push(lofty::tag::TagItem::new(key, lofty::tag::ItemValue::Text(text)))
}

/// `lofty::tag::Tag::push_picture` of a picture without a description, which appends it.
#[verifier::external_body]
fn push_picture(tag: &mut Tag, art: CoverArt)
    ensures
        holds_vorbis_comments(*final(tag)) == holds_vorbis_comments(*old(tag)),
        tag_items(*final(tag)) == tag_items(*old(tag)),
        tag_pictures(*final(tag)) == tag_pictures(*old(tag)).push(art@),
{
    let kind = match art.kind {
        PictureKind::Other => PictureType::Other,
        PictureKind::CoverFront => PictureType::CoverFront,
    };
    let mime = match art.format {
        ImageFormat::Png => MimeType::Png,
        ImageFormat::Jpeg => MimeType::Jpeg,
        ImageFormat::Gif => MimeType::Gif,
        ImageFormat::Bmp => MimeType::Bmp,
        ImageFormat::Tiff => MimeType::Tiff,
    };
    tag.push_picture(Picture::unchecked(art.data).pic_type(kind).mime_type(mime).build())
}

/// The item of a field that may not be known.
pub open spec fn optional_item(field: TagField, text: Option<Seq<char>>) -> Seq<
    (TagField, Seq<char>),
> {
    match text {
        Some(t) => seq![(field, t)],
        None => seq![],
    }
}

/// The item of a field that counts from one; a number that does not is not known.
pub open spec fn number_item(field: TagField, number: int) -> Seq<(TagField, Seq<char>)> {
    if number > 0 {
        seq![(field, crate::text::decimal(number as nat))]
    } else {
        seq![]
    }
}

/// The items of a field with one item for each of its values.
pub open spec fn items_of(field: TagField, values: Seq<Seq<char>>) -> Seq<(TagField, Seq<char>)> {
    values.map_values(|text: Seq<char>| (field, text))
}

/// The items that a track is tagged with.
pub open spec fn comments(r: TagRequestView) -> Seq<(TagField, Seq<char>)> {
    seq![(TagField::TrackTitle, r.title)] + optional_item(TagField::AlbumTitle, r.album)
        + number_item(TagField::TrackNumber, r.track_number as int) + number_item(
        TagField::DiscNumber,
        r.disc_number,
    ) + optional_item(TagField::RecordingDate, r.date) + items_of(TagField::TrackArtist, r.artists)
        + items_of(TagField::AlbumArtist, r.album_artists) + items_of(TagField::Genre, r.genres)
        + optional_item(TagField::Isrc, r.isrc)
}

/// No item of `items` is of `field`.
spec fn lacks(items: Seq<(TagField, Seq<char>)>, field: TagField) -> bool {
    forall|i: int| 0 <= i < items.len() ==> (#[trigger] items[i]).0 != field
}

proof fn filtering_keeps_other_fields(items: Seq<(TagField, Seq<char>)>, field: TagField)
    requires
        lacks(items, field),
    ensures
        without(items, field) == items,
    decreases items.len(),
{
    reveal(Seq::filter);
    if items.len() > 0 {
        let init = items.drop_last();
        assert forall|i: int| 0 <= i < init.len() implies (#[trigger] init[i]).0 != field by {
            assert(init[i] == items[i]);
        }
        filtering_keeps_other_fields(init, field);
        assert(items.last() == items[items.len() - 1]);
        assert(init.push(items.last()) == items);
    }
}

proof fn replacing_nothing_appends(
    items: Seq<(TagField, Seq<char>)>,
    field: TagField,
    text: Seq<char>,
)
    requires
        lacks(items, field),
    ensures
        replaced(items, field, text) == items.push((field, text)),
{
    filtering_keeps_other_fields(items, field);
}

/// Pushes one item for each of `values`.
fn push_all(tag: &mut Tag, field: TagField, values: &Vec<String>)
    requires
        holds_vorbis_comments(*old(tag)),
    ensures
        holds_vorbis_comments(*final(tag)),
        tag_items(*final(tag)) == tag_items(*old(tag)) + items_of(
            field,
            crate::text::texts(values@),
        ),
        tag_pictures(*final(tag)) == tag_pictures(*old(tag)),
{
    let ghost all = items_of(field, crate::text::texts(values@));
    let mut i: usize = 0;
    while i < values.len()
        invariant
            i <= values.len(),
            all == items_of(field, crate::text::texts(values@)),
            holds_vorbis_comments(*tag),
            tag_items(*tag) == tag_items(*old(tag)) + all.take(i as int),
            tag_pictures(*tag) == tag_pictures(*old(tag)),
        decreases values.len() - i,
    {
        push_text(tag, field, values[i].clone());
        assert(all.take(i + 1) == all.take(i as int).push(all[i as int]));
        i = i + 1;
    }
    assert(all.take(i as int) == all);
}

/// Makes the tag of a track: title, album, track and disc number, date and ISRC once each, as far
/// as they are known, one item for each artist, album artist and genre, and the cover.
pub fn build_tag(request: &TagRequest, cover: Option<CoverArt>) -> (tag: Tag)
    ensures
        holds_vorbis_comments(tag),
        tag_items(tag) == comments(request@),
        tag_pictures(tag) == (match cover {
            Some(art) => seq![art@],
            None => seq![],
        }),
{
    let ghost r = request@;
    let mut tag = new_tag();

    proof {
        replacing_nothing_appends(tag_items(tag), TagField::TrackTitle, r.title);
    }
    set_title(&mut tag, request.title.clone());
    let ghost title = tag_items(tag);
    assert(title == seq![(TagField::TrackTitle, r.title)]);

    if let Some(album) = &request.album {
        proof {
            replacing_nothing_appends(tag_items(tag), TagField::AlbumTitle, album@);
        }
        set_album(&mut tag, album.clone());
    }
    let ghost album = title + optional_item(TagField::AlbumTitle, r.album);
    assert(tag_items(tag) == album);

    if request.track_number > 0 {
        proof {
            replacing_nothing_appends(
                tag_items(tag),
                TagField::TrackNumber,
                crate::text::decimal(r.track_number),
            );
        }
        set_track(&mut tag, request.track_number);
    }
    let ghost track = album + number_item(TagField::TrackNumber, r.track_number as int);
    assert(tag_items(tag) == track);

    if request.disc_number > 0 {
        proof {
            replacing_nothing_appends(
                tag_items(tag),
                TagField::DiscNumber,
                crate::text::decimal(r.disc_number as nat),
            );
        }
        set_disk(&mut tag, request.disc_number as u32);
    }
    let ghost disc = track + number_item(TagField::DiscNumber, r.disc_number);
    assert(tag_items(tag) == disc);

    if let Some(date) = &request.date {
        // The raw date goes under DATE.
        proof {
            replacing_nothing_appends(tag_items(tag), TagField::RecordingDate, date@);
        }
        insert_text(&mut tag, TagField::RecordingDate, date.clone());
    }
    let ghost date = disc + optional_item(TagField::RecordingDate, r.date);
    assert(tag_items(tag) == date);

    push_all(&mut tag, TagField::TrackArtist, &request.artists);
    push_all(&mut tag, TagField::AlbumArtist, &request.album_artists);
    push_all(&mut tag, TagField::Genre, &request.genres);
    if let Some(isrc) = &request.isrc {
        proof {
            replacing_nothing_appends(tag_items(tag), TagField::Isrc, isrc@);
        }
        insert_text(&mut tag, TagField::Isrc, isrc.clone());
    }
    assert(tag_items(tag) == comments(r));

    if let Some(art) = cover {
        push_picture(&mut tag, art);
    }
    tag
}

/// The texts of the items of `field`, in order.
pub open spec fn texts_under(items: Seq<(TagField, Seq<char>)>, field: TagField) -> Seq<Seq<char>>
    decreases items.len(),
{
    if items.len() == 0 {
        seq![]
    } else if items.last().0 == field {
        texts_under(items.drop_last(), field).push(items.last().1)
    } else {
        texts_under(items.drop_last(), field)
    }
}

proof fn texts_under_sum(
    one: Seq<(TagField, Seq<char>)>,
    two: Seq<(TagField, Seq<char>)>,
    field: TagField,
)
    ensures
        texts_under(one + two, field) == texts_under(one, field) + texts_under(two, field),
    decreases two.len(),
{
    if two.len() > 0 {
        texts_under_sum(one, two.drop_last(), field);
        assert((one + two).drop_last() == one + two.drop_last());
    } else {
        assert(one + two == one);
    }
}

proof fn texts_under_items(values: Seq<Seq<char>>, of: TagField, field: TagField)
    ensures
        texts_under(items_of(of, values), field) == if of == field {
            values
        } else {
            seq![]
        },
    decreases values.len(),
{
    if values.len() > 0 {
        texts_under_items(values.drop_last(), of, field);
        assert(items_of(of, values).drop_last() == items_of(of, values.drop_last()));
        assert(values.drop_last().push(values.last()) == values);
    }
}

/// What a reader of the tag finds under `field`.
pub open spec fn values_of(r: TagRequestView, field: TagField) -> Seq<Seq<char>> {
    let optional = |text: Option<Seq<char>>|
        match text {
            Some(t) => seq![t],
            None => seq![],
        };
    let number = |n: int|
        if n > 0 {
            seq![crate::text::decimal(n as nat)]
        } else {
            seq![]
        };
    match field {
        TagField::TrackTitle => seq![r.title],
        TagField::AlbumTitle => optional(r.album),
        TagField::TrackNumber => number(r.track_number as int),
        TagField::DiscNumber => number(r.disc_number),
        TagField::RecordingDate => optional(r.date),
        TagField::TrackArtist => r.artists,
        TagField::AlbumArtist => r.album_artists,
        TagField::Genre => r.genres,
        TagField::Isrc => optional(r.isrc),
    }
}

proof fn texts_under_optional(text: Option<Seq<char>>, of: TagField, field: TagField)
    ensures
        texts_under(optional_item(of, text), field) == if of == field && text is Some {
            seq![text->0]
        } else {
            seq![]
        },
{
    reveal_with_fuel(texts_under, 2);
    if text is Some {
        assert(optional_item(of, text).drop_last() =~= seq![]);
    }
}

proof fn texts_under_number(n: int, of: TagField, field: TagField)
    ensures
        texts_under(number_item(of, n), field) == if of == field && n > 0 {
            seq![crate::text::decimal(n as nat)]
        } else {
            seq![]
        },
{
    reveal_with_fuel(texts_under, 2);
    if n > 0 {
        assert(number_item(of, n).drop_last() =~= seq![]);
    }
}

/// Under each field the tag of a track holds exactly what is known of it: the title once, album,
/// numbers, date and ISRC at most once, and the artists, album artists and genres each once and in
/// order.
pub proof fn comments_hold_what_is_known(r: TagRequestView, field: TagField)
    ensures
        texts_under(comments(r), field) == values_of(r, field),
{
    let title = optional_item(TagField::TrackTitle, Some(r.title));
    let album = optional_item(TagField::AlbumTitle, r.album);
    let track = number_item(TagField::TrackNumber, r.track_number as int);
    let disc = number_item(TagField::DiscNumber, r.disc_number);
    let date = optional_item(TagField::RecordingDate, r.date);
    let artists = items_of(TagField::TrackArtist, r.artists);
    let album_artists = items_of(TagField::AlbumArtist, r.album_artists);
    let genres = items_of(TagField::Genre, r.genres);
    let isrc = optional_item(TagField::Isrc, r.isrc);
    texts_under_sum(title, album, field);
    texts_under_sum(title + album, track, field);
    texts_under_sum(title + album + track, disc, field);
    texts_under_sum(title + album + track + disc, date, field);
    texts_under_sum(title + album + track + disc + date, artists, field);
    texts_under_sum(title + album + track + disc + date + artists, album_artists, field);
    texts_under_sum(title + album + track + disc + date + artists + album_artists, genres, field);
    texts_under_sum(
        title + album + track + disc + date + artists + album_artists + genres,
        isrc,
        field,
    );
    texts_under_optional(Some(r.title), TagField::TrackTitle, field);
    texts_under_optional(r.album, TagField::AlbumTitle, field);
    texts_under_number(r.track_number as int, TagField::TrackNumber, field);
    texts_under_number(r.disc_number, TagField::DiscNumber, field);
    texts_under_optional(r.date, TagField::RecordingDate, field);
    texts_under_items(r.artists, TagField::TrackArtist, field);
    texts_under_items(r.album_artists, TagField::AlbumArtist, field);
    texts_under_items(r.genres, TagField::Genre, field);
    texts_under_optional(r.isrc, TagField::Isrc, field);
    assert(texts_under(comments(r), field) =~= values_of(r, field));
}

/// What stands under a field of a longer list: the text of the last item too, where it is of that
/// field.
pub proof fn texts_under_a_longer_list(
    items: Seq<(TagField, Seq<char>)>,
    item: (TagField, Seq<char>),
    field: TagField,
)
    ensures
        texts_under(seq![], field) == Seq::<Seq<char>>::empty(),
        item.0 == field ==> texts_under(items.push(item), field) == texts_under(items, field).push(
            item.1,
        ),
        item.0 != field ==> texts_under(items.push(item), field) == texts_under(items, field),
{
    assert(items.push(item).drop_last() == items);
}

/// The tag of a track spelled out: the title once and in full; album, date and ISRC once where they
/// are known; the track and the disc number once, in decimal, where they count from one; and every
/// artist, album artist and genre, each once and in order.
pub proof fn tags_tell_everything_that_is_known(r: TagRequestView)
    ensures
        texts_under(comments(r), TagField::TrackTitle) == seq![r.title],
        match r.album {
            Some(text) => texts_under(comments(r), TagField::AlbumTitle) == seq![text],
            None => texts_under(comments(r), TagField::AlbumTitle).len() == 0,
        },
        match r.date {
            Some(text) => texts_under(comments(r), TagField::RecordingDate) == seq![text],
            None => texts_under(comments(r), TagField::RecordingDate).len() == 0,
        },
        match r.isrc {
            Some(text) => texts_under(comments(r), TagField::Isrc) == seq![text],
            None => texts_under(comments(r), TagField::Isrc).len() == 0,
        },
        r.track_number > 0 ==> texts_under(comments(r), TagField::TrackNumber) == seq![
            crate::text::decimal(r.track_number),
        ],
        r.track_number == 0 ==> texts_under(comments(r), TagField::TrackNumber).len() == 0,
        r.disc_number > 0 ==> texts_under(comments(r), TagField::DiscNumber) == seq![
            crate::text::decimal(r.disc_number as nat),
        ],
        r.disc_number <= 0 ==> texts_under(comments(r), TagField::DiscNumber).len() == 0,
        texts_under(comments(r), TagField::TrackArtist) == r.artists,
        texts_under(comments(r), TagField::AlbumArtist) == r.album_artists,
        texts_under(comments(r), TagField::Genre) == r.genres,
{
    comments_hold_what_is_known(r, TagField::TrackTitle);
    comments_hold_what_is_known(r, TagField::AlbumTitle);
    comments_hold_what_is_known(r, TagField::TrackNumber);
    comments_hold_what_is_known(r, TagField::DiscNumber);
    comments_hold_what_is_known(r, TagField::RecordingDate);
    comments_hold_what_is_known(r, TagField::TrackArtist);
    comments_hold_what_is_known(r, TagField::AlbumArtist);
    comments_hold_what_is_known(r, TagField::Genre);
    comments_hold_what_is_known(r, TagField::Isrc);
}

proof fn other_items_stay(
    items: Seq<(TagField, Seq<char>)>,
    replaced_field: TagField,
    field: TagField,
)
    ensures
        field != replaced_field ==> texts_under(without(items, replaced_field), field)
            == texts_under(items, field),
        texts_under(without(items, field), field).len() == 0,
    decreases items.len(),
{
    reveal(Seq::filter);
    if items.len() > 0 {
        let init = items.drop_last();
        other_items_stay(init, replaced_field, field);
        assert(init.push(items.last()) == items);
        texts_under_a_longer_list(init, items.last(), field);
        texts_under_a_longer_list(without(init, replaced_field), items.last(), field);
        texts_under_a_longer_list(without(init, field), items.last(), field);
    }
}

/// A text that replaces others stands alone under its field, and the other fields stay as they are.
pub proof fn replaced_texts_stand_alone(
    items: Seq<(TagField, Seq<char>)>,
    replaced_field: TagField,
    text: Seq<char>,
    field: TagField,
)
    ensures
        texts_under(replaced(items, replaced_field, text), replaced_field) == seq![text],
        field != replaced_field ==> texts_under(replaced(items, replaced_field, text), field)
            == texts_under(items, field),
{
    other_items_stay(items, replaced_field, field);
    other_items_stay(items, replaced_field, replaced_field);
    let item = (replaced_field, text);
    texts_under_a_longer_list(without(items, replaced_field), item, field);
    texts_under_a_longer_list(without(items, replaced_field), item, replaced_field);
}

} // verus!
