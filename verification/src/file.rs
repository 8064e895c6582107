//! The tags of a file.

use vstd::prelude::*;

use lofty::file::{FileType, TaggedFile};
use lofty::tag::Tag;

use crate::cover::{CoverArt, CoverArtView};
use crate::request::TagRequest;
use crate::tag::{build_tag, TagField};

verus! {

/// The types of files that the `lofty` crate knows.
#[derive(Clone, Copy, Debug, PartialEq, Eq, Structural)]
pub enum FileKind {
    Aac,
    Aiff,
    Ape,
    Flac,
    Mpeg,
    Mp4,
    Mpc,
    Opus,
    Vorbis,
    Speex,
    Wav,
    WavPack,
    /// A type that a program registers, with rules of its own.
    Custom,
}

/// What a tag holds: whether it is made of Vorbis comments, its items and its pictures.
#[verifier::ext_equal]
pub struct TagContents {
    pub vorbis: bool,
    pub items: Seq<(TagField, Seq<char>)>,
    pub pictures: Seq<CoverArtView>,
}

/// The contents of `tag`.
pub open spec fn contents(tag: Tag) -> TagContents {
    TagContents {
        vorbis: crate::tag::holds_vorbis_comments(tag),
        items: crate::tag::tag_items(tag),
        pictures: crate::tag::tag_pictures(tag),
    }
}

/// A file of the `lofty` crate: its type and a list of tags.
#[verifier::external_type_specification]
#[verifier::external_body]
pub struct ExTaggedFile(lofty::file::TaggedFile);

/// The type of a file.
pub uninterp spec fn file_kind(file: TaggedFile) -> FileKind;

/// The contents of the tags of a file, in order.
pub uninterp spec fn file_tags(file: TaggedFile) -> Seq<TagContents>;

/// Whether files of this type can hold Vorbis comments.
pub open spec fn takes_vorbis_comments(kind: FileKind) -> bool {
    ||| kind == FileKind::Flac
    ||| kind == FileKind::Opus
    ||| kind == FileKind::Speex
    ||| kind == FileKind::Vorbis
}

/// `tags` without the first that is made of Vorbis comments.
pub open spec fn without_first_comments(tags: Seq<TagContents>) -> Seq<TagContents>
    decreases tags.len(),
{
    if tags.len() == 0 {
        tags
    } else if tags.first().vorbis {
        tags.drop_first()
    } else {
        seq![tags.first()] + without_first_comments(tags.drop_first())
    }
}

/// The tags of a file once `tag`, made of Vorbis comments, was inserted: it goes to the end, and
/// the first such tag leaves. A file that cannot hold it stays as it is.
pub open spec fn retagged(kind: FileKind, tags: Seq<TagContents>, tag: TagContents) -> Seq<
    TagContents,
> {
    if takes_vorbis_comments(kind) {
        without_first_comments(tags).push(tag)
    } else {
        tags
    }
}

/// `lofty::file::TaggedFileExt::file_type`, which gives the type of a file.
#[verifier::external_body]
fn kind_of(file: &TaggedFile) -> (kind: FileKind)
    ensures
        kind == file_kind(*file),
{
    match lofty::file::TaggedFileExt::file_type(file) {
        FileType::Aac => FileKind::Aac,
        FileType::Aiff => FileKind::Aiff,
        FileType::Ape => FileKind::Ape,
        FileType::Flac => FileKind::Flac,
        FileType::Mpeg => FileKind::Mpeg,
        FileType::Mp4 => FileKind::Mp4,
        FileType::Mpc => FileKind::Mpc,
        FileType::Opus => FileKind::Opus,
        FileType::Vorbis => FileKind::Vorbis,
        FileType::Speex => FileKind::Speex,
        FileType::Wav => FileKind::Wav,
        FileType::WavPack => FileKind::WavPack,
        _ => FileKind::Custom,
    }
}

/// `lofty::file::TaggedFileExt::insert_tag` of Vorbis comments. Where the type of the file can hold
/// them, the first tag of that kind leaves, and `tag` goes behind the others; otherwise nothing
/// changes. What a custom type can hold is for its resolver to say, and one without a resolver
/// panics, so these are left out.
#[verifier::external_body]
fn insert_tag(file: &mut TaggedFile, tag: Tag)
    requires
        file_kind(*old(file)) != FileKind::Custom,
        crate::tag::holds_vorbis_comments(tag),
    ensures
        file_kind(*final(file)) == file_kind(*old(file)),
        file_tags(*final(file)) == retagged(
            file_kind(*old(file)),
            file_tags(*old(file)),
            contents(tag),
        ),
{
    lofty::file::TaggedFileExt::insert_tag(file, tag);
}

/// Puts the tag of a track, with its cover, in the place of the Vorbis comments of a file. A file
/// whose type cannot hold any stays as it is, and so does one of a custom type.
pub fn retag(file: &mut TaggedFile, request: &TagRequest, cover: Option<CoverArt>)
    ensures
        file_kind(*final(file)) == file_kind(*old(file)),
        file_tags(*final(file)) == retagged(
            file_kind(*old(file)),
            file_tags(*old(file)),
            (TagContents {
                vorbis: true,
                items: crate::tag::comments(request@),
                pictures: match cover {
                    Some(art) => seq![art@],
                    None => seq![],
                },
            }),
        ),
{
    let kind = kind_of(file);
    if kind != FileKind::Custom {
        insert_tag(file, build_tag(request, cover));
    }
}

/// The tags that are made of Vorbis comments, or those that are not, in order.
pub open spec fn tags_with(tags: Seq<TagContents>, vorbis: bool) -> Seq<TagContents>
    decreases tags.len(),
{
    if tags.len() == 0 {
        seq![]
    } else if tags.first().vorbis == vorbis {
        seq![tags.first()] + tags_with(tags.drop_first(), vorbis)
    } else {
        tags_with(tags.drop_first(), vorbis)
    }
}

proof fn tags_with_pushed(tags: Seq<TagContents>, tag: TagContents, vorbis: bool)
    ensures
        tags_with(tags.push(tag), vorbis) == if tag.vorbis == vorbis {
            tags_with(tags, vorbis).push(tag)
        } else {
            tags_with(tags, vorbis)
        },
    decreases tags.len(),
{
    reveal_with_fuel(tags_with, 2);
    if tags.len() > 0 {
        assert(tags.push(tag).drop_first() == tags.drop_first().push(tag));
        tags_with_pushed(tags.drop_first(), tag, vorbis);
    } else {
        assert(tags.push(tag).drop_first() == tags);
    }
}

proof fn first_comments_leave(tags: Seq<TagContents>)
    ensures
        tags_with(without_first_comments(tags), false) == tags_with(tags, false),
        tags_with(without_first_comments(tags), true) == if tags_with(tags, true).len() == 0 {
            tags_with(tags, true)
        } else {
            tags_with(tags, true).drop_first()
        },
    decreases tags.len(),
{
    if tags.len() > 0 && !tags.first().vorbis {
        let rest = without_first_comments(tags.drop_first());
        first_comments_leave(tags.drop_first());
        assert((seq![tags.first()] + rest).drop_first() == rest);
    } else if tags.len() > 0 {
        assert(tags_with(tags, true).drop_first() == tags_with(tags.drop_first(), true));
    }
}

/// A file with no more than one tag of Vorbis comments, of a type that can hold them, holds exactly
/// the new one once it was retagged.
pub proof fn retagging_replaces_the_comments(
    kind: FileKind,
    tags: Seq<TagContents>,
    tag: TagContents,
)
    requires
        takes_vorbis_comments(kind),
        tag.vorbis,
        tags_with(tags, true).len() <= 1,
    ensures
        tags_with(retagged(kind, tags, tag), true) == seq![tag],
{
    first_comments_leave(tags);
    tags_with_pushed(without_first_comments(tags), tag, true);
}

/// Retagging leaves tags of other kinds as they are.
pub proof fn retagging_keeps_other_tags(kind: FileKind, tags: Seq<TagContents>, tag: TagContents)
    requires
        tag.vorbis,
    ensures
        tags_with(retagged(kind, tags, tag), false) == tags_with(tags, false),
{
    first_comments_leave(tags);
    tags_with_pushed(without_first_comments(tags), tag, false);
}

proof fn nothing_leaves_where_there_are_no_comments(tags: Seq<TagContents>, tag: TagContents)
    requires
        tag.vorbis,
        tags_with(tags, true).len() == 0,
    ensures
        without_first_comments(tags.push(tag)) == tags,
    decreases tags.len(),
{
    reveal_with_fuel(without_first_comments, 2);
    if tags.len() > 0 {
        nothing_leaves_where_there_are_no_comments(tags.drop_first(), tag);
        assert(tags.push(tag).drop_first() == tags.drop_first().push(tag));
        assert(seq![tags.first()] + tags.drop_first() == tags);
    } else {
        assert(tags.push(tag).drop_first() == tags);
    }
}

/// Of two tags that are put into a file one after the other, the later one stays.
pub proof fn retagging_twice_keeps_the_later_tag(
    kind: FileKind,
    tags: Seq<TagContents>,
    earlier: TagContents,
    later: TagContents,
)
    requires
        earlier.vorbis,
        tags_with(tags, true).len() <= 1,
    ensures
        retagged(kind, retagged(kind, tags, earlier), later) == retagged(kind, tags, later),
{
    first_comments_leave(tags);
    nothing_leaves_where_there_are_no_comments(without_first_comments(tags), earlier);
}

/// Flac, Opus, Speex and Vorbis files take the new tag: it goes to the end. Files of other types
/// stay as they are.
pub proof fn comments_go_to_the_end_of_these_files(tags: Seq<TagContents>, tag: TagContents)
    ensures
        retagged(FileKind::Vorbis, tags, tag).len() > 0,
        retagged(FileKind::Vorbis, tags, tag).last() == tag,
        retagged(FileKind::Flac, tags, tag) == retagged(FileKind::Vorbis, tags, tag),
        retagged(FileKind::Opus, tags, tag) == retagged(FileKind::Vorbis, tags, tag),
        retagged(FileKind::Speex, tags, tag) == retagged(FileKind::Vorbis, tags, tag),
        retagged(FileKind::Aac, tags, tag) == tags,
        retagged(FileKind::Aiff, tags, tag) == tags,
        retagged(FileKind::Ape, tags, tag) == tags,
        retagged(FileKind::Mpeg, tags, tag) == tags,
        retagged(FileKind::Mp4, tags, tag) == tags,
        retagged(FileKind::Mpc, tags, tag) == tags,
        retagged(FileKind::Wav, tags, tag) == tags,
        retagged(FileKind::WavPack, tags, tag) == tags,
        retagged(FileKind::Custom, tags, tag) == tags,
{
}

/// The tag that is first among those of Vorbis comments leaves, and every other tag stays, in its
/// order, before the new one.
pub proof fn first_comments_make_room(
    before: Seq<TagContents>,
    earlier: TagContents,
    after: Seq<TagContents>,
    tag: TagContents,
)
    requires
        forall|i: int| 0 <= i < before.len() ==> !(#[trigger] before[i]).vorbis,
        earlier.vorbis,
    ensures
        retagged(FileKind::Vorbis, before.push(earlier) + after, tag) == (before + after).push(tag),
        retagged(FileKind::Vorbis, before, tag) == before.push(tag),
{
    first_comments_are_cut_out(before, earlier, after);
    nothing_is_cut_out(before);
}

proof fn first_comments_are_cut_out(
    before: Seq<TagContents>,
    earlier: TagContents,
    after: Seq<TagContents>,
)
    requires
        forall|i: int| 0 <= i < before.len() ==> !(#[trigger] before[i]).vorbis,
        earlier.vorbis,
    ensures
        without_first_comments(before.push(earlier) + after) == before + after,
    decreases before.len(),
{
    let all = before.push(earlier) + after;
    if before.len() > 0 {
        let rest = before.drop_first();
        assert forall|i: int| 0 <= i < rest.len() implies !(#[trigger] rest[i]).vorbis by {
            assert(rest[i] == before[i + 1]);
        }
        first_comments_are_cut_out(rest, earlier, after);
        assert(!before[0].vorbis);
        assert(all.first() == before[0]);
        assert(all.drop_first() == rest.push(earlier) + after);
        assert(seq![before[0]] + (rest + after) == before + after);
    } else {
        assert(all.first() == earlier);
        assert(all.drop_first() == before + after);
    }
}

proof fn nothing_is_cut_out(tags: Seq<TagContents>)
    requires
        forall|i: int| 0 <= i < tags.len() ==> !(#[trigger] tags[i]).vorbis,
    ensures
        without_first_comments(tags) == tags,
    decreases tags.len(),
{
    if tags.len() > 0 {
        let rest = tags.drop_first();
        assert forall|i: int| 0 <= i < rest.len() implies !(#[trigger] rest[i]).vorbis by {
            assert(rest[i] == tags[i + 1]);
        }
        assert(!tags[0].vorbis);
        nothing_is_cut_out(rest);
        assert(seq![tags.first()] + rest == tags);
    }
}

} // verus!
