//! What is known of a captured track.

use vstd::prelude::*;

verus! {

/// A track of the player's queue.
#[derive(Clone, Debug)]
pub struct Track {
    /// The base62 id of the track; a local file has none.
    pub id: Option<String>,
    pub title: String,
    pub artists: Vec<String>,
    pub album: Option<String>,
    pub album_artists: Vec<String>,
    pub track_number: u32,
    pub disc_number: i32,
    pub cover_url: Option<String>,
}

/// A self-contained snapshot of everything needed to tag and organize one captured track.
#[derive(Clone, Debug)]
pub struct TagRequest {
    /// The base62 id of the track, which locates the file `capture_<id>.ogg`.
    pub track_id: String,
    pub title: String,
    pub artists: Vec<String>,
    pub album: Option<String>,
    pub album_artists: Vec<String>,
    pub track_number: u32,
    pub disc_number: i32,
    /// Release year or date, if known, such as `2019` or `2019-03-01`.
    pub date: Option<String>,
    /// Genres, if known.
    pub genres: Vec<String>,
    /// ISRC, if known.
    pub isrc: Option<String>,
    /// URL of the album cover to embed, if any.
    pub cover_url: Option<String>,
    /// The path of the directory that the capture file is written to, and under which the
    /// organized library is created. Where it is empty, paths are relative.
    pub output_root: String,
}

/// The texts and numbers of a [`TagRequest`].
#[verifier::ext_equal]
pub struct TagRequestView {
    pub track_id: Seq<char>,
    pub title: Seq<char>,
    pub artists: Seq<Seq<char>>,
    pub album: Option<Seq<char>>,
    pub album_artists: Seq<Seq<char>>,
    pub track_number: nat,
    pub disc_number: int,
    pub date: Option<Seq<char>>,
    pub genres: Seq<Seq<char>>,
    pub isrc: Option<Seq<char>>,
    pub cover_url: Option<Seq<char>>,
    pub output_root: Seq<char>,
}

impl View for TagRequest {
    type V = TagRequestView;

    open spec fn view(&self) -> TagRequestView {
        TagRequestView {
            track_id: self.track_id@,
            title: self.title@,
            artists: crate::text::texts(self.artists@),
            album: crate::text::optional_text(self.album),
            album_artists: crate::text::texts(self.album_artists@),
            track_number: self.track_number as nat,
            disc_number: self.disc_number as int,
            date: crate::text::optional_text(self.date),
            genres: crate::text::texts(self.genres@),
            isrc: crate::text::optional_text(self.isrc),
            cover_url: crate::text::optional_text(self.cover_url),
            output_root: self.output_root@,
        }
    }
}

/// The path of the capture of the track `track_id` below `root`.
pub open spec fn capture_path_of(root: Seq<char>, track_id: Seq<char>) -> Seq<char> {
    crate::path::joined(root, "capture_"@ + track_id + ".ogg"@)
}

impl TagRequest {
    /// Builds a request from a track: everything that the track carries, and no release date,
    /// genre or ISRC. There is none for a track without an id, since nothing captures it.
    pub fn from_track(track: &Track, output_root: String) -> (request: Option<TagRequest>)
        ensures
            request is Some <==> track.id is Some,
            request matches Some(r) ==> r@ == (TagRequestView {
                track_id: track.id->0@,
                title: track.title@,
                artists: crate::text::texts(track.artists@),
                album: crate::text::optional_text(track.album),
                album_artists: crate::text::texts(track.album_artists@),
                track_number: track.track_number as nat,
                disc_number: track.disc_number as int,
                date: None,
                genres: seq![],
                isrc: None,
                cover_url: crate::text::optional_text(track.cover_url),
                output_root: output_root@,
            }),
            request matches Some(r) ==> {
                &&& r.track_id@ == track.id->0@
                &&& r.title@ == track.title@
                &&& r.artists@ == track.artists@
                &&& r.album_artists@ == track.album_artists@
                &&& r.track_number == track.track_number
                &&& r.disc_number == track.disc_number
                &&& r.output_root@ == output_root@
            },
    {
        let track_id = match &track.id {
            Some(id) => id.clone(),
            None => return None,
        };
        let request = TagRequest {
            track_id,
            title: track.title.clone(),
            artists: track.artists.clone(),
            album: track.album.clone(),
            album_artists: track.album_artists.clone(),
            track_number: track.track_number,
            disc_number: track.disc_number,
            date: None,
            genres: Vec::new(),
            isrc: None,
            cover_url: track.cover_url.clone(),
            output_root,
        };
        assert(request.artists@ =~= track.artists@);
        assert(request.album_artists@ =~= track.album_artists@);
        assert(crate::text::texts(request.genres@) =~= seq![]);
        Some(request)
    }

    /// The path of the finished capture file of this track.
    pub fn capture_path(&self) -> (path: String)
        ensures
            path@ == capture_path_of(self@.output_root, self@.track_id),
            ("capture_"@ + self.track_id@ + ".ogg"@).is_suffix_of(path@),
    {
        proof {
            captures_are_named_by_the_whole_id(self@.output_root, self@.track_id);
        }
        let mut name = "capture_".to_owned();
        name.append(self.track_id.as_str());
        name.append(".ogg");
        crate::path::join(self.output_root.as_str(), name.as_str())
    }
}

/// What the web service says of a track.
#[derive(Clone, Debug)]
pub struct TrackDetails {
    /// External ids by the name of their scheme, each name once.
    pub external_ids: Vec<(String, String)>,
    /// The release date of the track's album, if given.
    pub release_date: Option<String>,
    /// The id of the track's album, if it has one.
    pub album_id: Option<String>,
}

/// What the web service says of an album.
#[derive(Clone, Debug)]
pub struct AlbumDetails {
    pub genres: Vec<String>,
    pub release_date: String,
}

/// The answer to a lookup.
#[derive(Clone, Debug)]
pub enum Reply {
    Track(TrackDetails),
    Album(AlbumDetails),
    /// The lookup failed.
    Unavailable,
}

/// The texts of a [`TrackDetails`].
#[verifier::ext_equal]
pub struct TrackDetailsView {
    pub external_ids: Seq<(Seq<char>, Seq<char>)>,
    pub release_date: Option<Seq<char>>,
    pub album_id: Option<Seq<char>>,
}

/// The texts of an [`AlbumDetails`].
#[verifier::ext_equal]
pub struct AlbumDetailsView {
    pub genres: Seq<Seq<char>>,
    pub release_date: Seq<char>,
}

/// The texts of a [`Reply`].
#[verifier::ext_equal]
pub enum ReplyView {
    Track(TrackDetailsView),
    Album(AlbumDetailsView),
    Unavailable,
}

impl View for TrackDetails {
    type V = TrackDetailsView;

    open spec fn view(&self) -> TrackDetailsView {
        TrackDetailsView {
            external_ids: self.external_ids@.map_values(|e: (String, String)| (e.0@, e.1@)),
            release_date: crate::text::optional_text(self.release_date),
            album_id: crate::text::optional_text(self.album_id),
        }
    }
}

impl View for AlbumDetails {
    type V = AlbumDetailsView;

    open spec fn view(&self) -> AlbumDetailsView {
        AlbumDetailsView {
            genres: crate::text::texts(self.genres@),
            release_date: self.release_date@,
        }
    }
}

impl View for Reply {
    type V = ReplyView;

    open spec fn view(&self) -> ReplyView {
        match self {
            Reply::Track(details) => ReplyView::Track(details@),
            Reply::Album(details) => ReplyView::Album(details@),
            Reply::Unavailable => ReplyView::Unavailable,
        }
    }
}

/// The first value that `entries` gives for `key`.
pub open spec fn lookup(entries: Seq<(Seq<char>, Seq<char>)>, key: Seq<char>) -> Option<Seq<char>>
    decreases entries.len(),
{
    if entries.len() == 0 {
        None
    } else if entries.first().0 == key {
        Some(entries.first().1)
    } else {
        lookup(entries.drop_first(), key)
    }
}

/// `known` where it is known, else `found`.
pub open spec fn known_or(known: Option<Seq<char>>, found: Option<Seq<char>>) -> Option<Seq<char>> {
    if known is Some {
        known
    } else {
        found
    }
}

/// The request `r` once `reply` has filled in what was not known.
pub open spec fn enriched(r: TagRequestView, reply: ReplyView) -> TagRequestView {
    match reply {
        ReplyView::Track(details) => TagRequestView {
            isrc: known_or(r.isrc, lookup(details.external_ids, "isrc"@)),
            date: known_or(r.date, details.release_date),
            ..r
        },
        ReplyView::Album(details) => TagRequestView {
            genres: if r.genres.len() == 0 {
                details.genres
            } else {
                r.genres
            },
            date: known_or(r.date, Some(details.release_date)),
            ..r
        },
        ReplyView::Unavailable => r,
    }
}

/// The album to look up after `reply`.
pub open spec fn next_lookup(reply: ReplyView) -> Option<Seq<char>> {
    match reply {
        ReplyView::Track(details) => details.album_id,
        ReplyView::Album(_) => None,
        ReplyView::Unavailable => None,
    }
}

/// The first value that `entries` gives for `key`.
fn find(entries: &Vec<(String, String)>, key: &str) -> (found: Option<String>)
    ensures
        crate::text::optional_text(found) == lookup(
            entries@.map_values(|e: (String, String)| (e.0@, e.1@)),
            key@,
        ),
{
    let ghost all = entries@.map_values(|e: (String, String)| (e.0@, e.1@));
    let wanted = key.to_owned();
    let mut i: usize = 0;
    assert(all.skip(0) == all);
    while i < entries.len()
        invariant
            i <= entries.len(),
            wanted@ == key@,
            all == entries@.map_values(|e: (String, String)| (e.0@, e.1@)),
            lookup(all.skip(i as int), key@) == lookup(all, key@),
        decreases entries.len() - i,
    {
        assert(all.skip(i as int).first() == (entries@[i as int].0@, entries@[i as int].1@));
        assert(all.skip(i as int).drop_first() == all.skip(i + 1));
        if entries[i].0 == wanted {
            return Some(entries[i].1.clone());
        }
        i = i + 1;
    }
    assert(all.skip(i as int).len() == 0);
    None
}

/// The id of the track to look up first: the track of the request itself.
pub fn first_lookup(request: &TagRequest) -> (track_id: String)
    ensures
        track_id@ == request@.track_id,
        track_id@ == request.track_id@,
{
    request.track_id.clone()
}

/// Fills in release date, genres and ISRC from the answer to a lookup, and gives the id of the
/// album to look up next, if any. What is known already stays, and a failed lookup changes
/// nothing.
///
/// The first lookup is that of [`first_lookup`].
pub fn enrich(request: &mut TagRequest, reply: &Reply) -> (album_id: Option<String>)
    ensures
        final(request)@ == enriched(old(request)@, reply@),
        crate::text::optional_text(album_id) == next_lookup(reply@),
{
    match reply {
        Reply::Track(details) => {
            // The ISRC stands among the external ids under the name "isrc".
            if request.isrc.is_none() {
                request.isrc = find(&details.external_ids, "isrc");
            }
            // The album of a track carries the release date.
            if request.date.is_none() {
                request.date = details.release_date.clone();
            }
            details.album_id.clone()
        },
        Reply::Album(details) => {
            if request.genres.is_empty() {
                request.genres = details.genres.clone();
                assert(request.genres@ =~= details.genres@);
            }
            // The release date of the album is the fallback.
            if request.date.is_none() {
                request.date = Some(details.release_date.clone());
            }
            None
        },
        Reply::Unavailable => None,
    }
}

/// No answer changes a field that is known already, nor any field but release date, genres and
/// ISRC.
pub proof fn enriching_keeps_what_is_known(r: TagRequestView, reply: ReplyView)
    ensures
        ({
            let e = enriched(r, reply);
            &&& r.date is Some ==> e.date == r.date
            &&& r.isrc is Some ==> e.isrc == r.isrc
            &&& r.genres.len() > 0 ==> e.genres == r.genres
            &&& e == TagRequestView { date: e.date, genres: e.genres, isrc: e.isrc, ..r }
        }),
{
}

/// Enriching by the same answer twice is enriching once.
pub proof fn enriching_twice(r: TagRequestView, reply: ReplyView)
    ensures
        enriched(enriched(r, reply), reply) == enriched(r, reply),
{
}

/// The release date that the track's answer gives is preferred to that of the album's answer.
pub proof fn track_date_comes_first(
    r: TagRequestView,
    track: TrackDetailsView,
    album: AlbumDetailsView,
)
    ensures
        enriched(enriched(r, ReplyView::Track(track)), ReplyView::Album(album)).date == known_or(
            r.date,
            known_or(track.release_date, Some(album.release_date)),
        ),
{
}

/// A lookup of the web service.
#[verifier::ext_equal]
pub enum LookupView {
    Track { id: Seq<char> },
    Album { id: Seq<char> },
}

/// Whether a lookup can have this answer.
pub open spec fn replies_to(lookup: LookupView, reply: ReplyView) -> bool {
    match lookup {
        LookupView::Track { .. } => reply is Track || reply is Unavailable,
        LookupView::Album { .. } => reply is Album || reply is Unavailable,
    }
}

/// The lookups for the request `r`, each with its answer: the track of the request first, then
/// the album that [`enrich`] gives for an answer, until it gives none.
pub open spec fn are_lookups(
    r: TagRequestView,
    lookups: Seq<LookupView>,
    replies: Seq<ReplyView>,
) -> bool {
    &&& 1 <= lookups.len() == replies.len()
    &&& lookups.first() == (LookupView::Track { id: r.track_id })
    &&& forall|i: int| 0 <= i < lookups.len() ==> replies_to(lookups[i], #[trigger] replies[i])
    &&& forall|i: int|
        0 <= i < lookups.len() - 1 ==> (next_lookup(#[trigger] replies[i]) matches Some(id)
            && lookups[i + 1] == (LookupView::Album { id }))
    &&& next_lookup(replies.last()) is None
}

/// Lookups are made once each: the track of the request, and then, exactly where the answer names
/// an album, that album. None is repeated, whatever is known already, and whatever fails.
pub proof fn lookups_are_made_once(
    r: TagRequestView,
    lookups: Seq<LookupView>,
    replies: Seq<ReplyView>,
)
    requires
        are_lookups(r, lookups, replies),
    ensures
        lookups == (match replies.first() {
            ReplyView::Track(details) => match details.album_id {
                Some(id) => seq![
                    LookupView::Track { id: r.track_id },
                    LookupView::Album { id },
                ],
                None => seq![LookupView::Track { id: r.track_id }],
            },
            _ => seq![LookupView::Track { id: r.track_id }],
        }),
{
    assert(replies_to(lookups[0], replies[0]));
    if lookups.len() > 1 {
        assert(next_lookup(replies[0]) is Some);
        assert(replies_to(lookups[1], replies[1]));
        if lookups.len() > 2 {
            assert(next_lookup(replies[1]) is Some);
        }
    }
}

/// Whether each name stands once among `entries`.
pub open spec fn names_are_distinct(entries: Seq<(Seq<char>, Seq<char>)>) -> bool {
    forall|i: int, j: int|
        0 <= i < j < entries.len() ==> (#[trigger] entries[i]).0 != (#[trigger] entries[j]).0
}

/// Where each name stands once, a value is found exactly where it stands under the name, whatever
/// the order of the entries.
pub proof fn lookup_finds_the_entry(
    entries: Seq<(Seq<char>, Seq<char>)>,
    key: Seq<char>,
    value: Seq<char>,
)
    requires
        names_are_distinct(entries),
    ensures
        lookup(entries, key) == Some(value) <==> entries.contains((key, value)),
    decreases entries.len(),
{
    if entries.len() > 0 {
        let rest = entries.drop_first();
        assert(forall|i: int| 0 <= i < rest.len() ==> #[trigger] rest[i] == entries[i + 1]);
        lookup_finds_the_entry(rest, key, value);
        if entries.first().0 == key {
            if entries.contains((key, value)) {
                let i = choose|i: int| 0 <= i < entries.len() && entries[i] == (key, value);
                assert(i == 0) by {
                    if i > 0 {
                        assert(entries[0].0 != entries[i].0);
                    }
                }
            } else if entries.first().1 == value {
                assert(entries[0] == (key, value));
            }
        } else {
            if rest.contains((key, value)) {
                let i = choose|i: int| 0 <= i < rest.len() && rest[i] == (key, value);
                assert(entries[i + 1] == (key, value));
            }
            if entries.contains((key, value)) {
                let i = choose|i: int| 0 <= i < entries.len() && entries[i] == (key, value);
                assert(rest[i - 1] == (key, value));
            }
        }
    }
}

/// The capture of a track stands right below the root, and its file name is `capture_`, the whole
/// id and `.ogg`.
pub proof fn captures_are_named_by_the_whole_id(root: Seq<char>, track_id: Seq<char>)
    ensures
        ({
            let name = "capture_"@ + track_id + ".ogg"@;
            let path = capture_path_of(root, track_id);
            &&& root.is_prefix_of(path)
            &&& name.is_suffix_of(path)
            &&& root.len() == 0 || root[root.len() - 1] == '/' ==> path.len() == root.len()
                + name.len()
            &&& root.len() > 0 && root[root.len() - 1] != '/' ==> {
                &&& path.len() == root.len() + 1 + name.len()
                &&& path[root.len() as int] == '/'
            }
        }),
{
    reveal_strlit("capture_");
    let name = "capture_"@ + track_id + ".ogg"@;
    assert(name[0] == 'c');
    crate::path::joining_keeps_base_and_part(root, name);
}

/// Captures of different tracks below one root have different paths.
pub proof fn captures_of_different_tracks_differ(root: Seq<char>, one: Seq<char>, other: Seq<char>)
    requires
        one != other,
    ensures
        capture_path_of(root, one) != capture_path_of(root, other),
{
    captures_are_named_by_the_whole_id(root, one);
    captures_are_named_by_the_whole_id(root, other);
    let a = "capture_"@ + one + ".ogg"@;
    let b = "capture_"@ + other + ".ogg"@;
    if capture_path_of(root, one) == capture_path_of(root, other) {
        let path = capture_path_of(root, one);
        assert(a.len() == b.len());
        assert(a == path.subrange(path.len() - a.len(), path.len() as int));
        assert(b == path.subrange(path.len() - b.len(), path.len() as int));
        let lead = "capture_"@.len() as int;
        assert(a.subrange(lead, lead + one.len()) == one);
        assert(b.subrange(lead, lead + other.len()) == other);
    }
}

/// A value is found under a name exactly where it stands under the name, and no entry before it
/// has that name.
pub proof fn lookup_finds_the_first_entry(
    entries: Seq<(Seq<char>, Seq<char>)>,
    key: Seq<char>,
    i: int,
)
    requires
        0 <= i < entries.len(),
        entries[i].0 == key,
        forall|j: int| 0 <= j < i ==> (#[trigger] entries[j]).0 != key,
    ensures
        lookup(entries, key) == Some(entries[i].1),
    decreases entries.len(),
{
    if i > 0 {
        let rest = entries.drop_first();
        assert(entries[0].0 != key);
        assert forall|j: int| 0 <= j < i - 1 implies (#[trigger] rest[j]).0 != key by {
            assert(rest[j] == entries[j + 1]);
        }
        lookup_finds_the_first_entry(rest, key, i - 1);
    }
}

/// Nothing is found under a name that no entry has.
pub proof fn lookup_finds_nothing_else(entries: Seq<(Seq<char>, Seq<char>)>, key: Seq<char>)
    requires
        forall|j: int| 0 <= j < entries.len() ==> (#[trigger] entries[j]).0 != key,
    ensures
        lookup(entries, key) is None,
    decreases entries.len(),
{
    if entries.len() > 0 {
        let rest = entries.drop_first();
        assert(entries[0].0 != key);
        assert forall|j: int| 0 <= j < rest.len() implies (#[trigger] rest[j]).0 != key by {
            assert(rest[j] == entries[j + 1]);
        }
        lookup_finds_nothing_else(rest, key);
    }
}

/// What the answer on a track fills in: the ISRC that stands first under `isrc` and the release
/// date, each where it was not known. Genres stay, and the album of the answer is looked up next.
pub proof fn track_answers_fill_in_isrc_and_date(
    r: TagRequestView,
    track: TrackDetailsView,
    i: int,
)
    ensures
        ({
            let e = enriched(r, ReplyView::Track(track));
            let ids = track.external_ids;
            &&& r.date is None ==> e.date == track.release_date
            &&& r.isrc is None && 0 <= i < ids.len() && ids[i].0 == "isrc"@ && (forall|j: int|
                0 <= j < i ==> (#[trigger] ids[j]).0 != "isrc"@) ==> e.isrc == Some(ids[i].1)
            &&& r.isrc is None && (forall|j: int|
                0 <= j < ids.len() ==> (#[trigger] ids[j]).0 != "isrc"@) ==> e.isrc is None
            &&& e.genres == r.genres
            &&& next_lookup(ReplyView::Track(track)) == track.album_id
        }),
{
    let ids = track.external_ids;
    if 0 <= i < ids.len() && ids[i].0 == "isrc"@ && (forall|j: int|
        0 <= j < i ==> (#[trigger] ids[j]).0 != "isrc"@) {
        lookup_finds_the_first_entry(ids, "isrc"@, i);
    }
    if forall|j: int| 0 <= j < ids.len() ==> (#[trigger] ids[j]).0 != "isrc"@ {
        lookup_finds_nothing_else(ids, "isrc"@);
    }
}

/// What the answer on an album fills in: all of its genres and its release date, each where it was
/// not known. The ISRC stays, and nothing is looked up next.
pub proof fn album_answers_fill_in_genres_and_date(r: TagRequestView, album: AlbumDetailsView)
    ensures
        ({
            let e = enriched(r, ReplyView::Album(album));
            &&& r.date is None ==> e.date == Some(album.release_date)
            &&& r.genres.len() == 0 ==> e.genres == album.genres
            &&& e.isrc == r.isrc
            &&& next_lookup(ReplyView::Album(album)) is None
        }),
{
}

/// A lookup that failed changes nothing and leads to no other.
pub proof fn failed_lookups_change_nothing(r: TagRequestView)
    ensures
        enriched(r, ReplyView::Unavailable) == r,
        next_lookup(ReplyView::Unavailable) is None,
{
}

/// The view of a request tells its texts and numbers as they are.
pub proof fn request_views_are_exact(request: TagRequest)
    ensures
        request@.track_id == request.track_id@,
        request@.title == request.title@,
        request@.track_number == request.track_number,
        request@.disc_number == request.disc_number,
        request@.output_root == request.output_root@,
        request@.artists.len() == request.artists@.len(),
        forall|i: int|
            0 <= i < request.artists@.len() ==> #[trigger] request@.artists[i]
                == request.artists@[i]@,
        request@.album_artists.len() == request.album_artists@.len(),
        forall|i: int|
            0 <= i < request.album_artists@.len() ==> #[trigger] request@.album_artists[i]
                == request.album_artists@[i]@,
        request@.genres.len() == request.genres@.len(),
        forall|i: int|
            0 <= i < request.genres@.len() ==> #[trigger] request@.genres[i] == request.genres@[i]@,
        match request.album {
            Some(text) => request@.album == Some(text@),
            None => request@.album is None,
        },
        match request.date {
            Some(text) => request@.date == Some(text@),
            None => request@.date is None,
        },
        match request.isrc {
            Some(text) => request@.isrc == Some(text@),
            None => request@.isrc is None,
        },
        match request.cover_url {
            Some(text) => request@.cover_url == Some(text@),
            None => request@.cover_url is None,
        },
{
}

/// The view of an answer tells its texts as they are.
pub proof fn reply_views_are_exact(reply: Reply)
    ensures
        match reply {
            Reply::Track(details) => {
                &&& reply@ == ReplyView::Track(details@)
                &&& details@.external_ids.len() == details.external_ids@.len()
                &&& forall|i: int|
                    0 <= i < details.external_ids@.len() ==> #[trigger] details@.external_ids[i] == (
                        details.external_ids@[i].0@,
                        details.external_ids@[i].1@,
                    )
                &&& match details.release_date {
                    Some(text) => details@.release_date == Some(text@),
                    None => details@.release_date is None,
                }
                &&& match details.album_id {
                    Some(text) => details@.album_id == Some(text@),
                    None => details@.album_id is None,
                }
            },
            Reply::Album(details) => {
                &&& reply@ == ReplyView::Album(details@)
                &&& details@.release_date == details.release_date@
                &&& details@.genres.len() == details.genres@.len()
                &&& forall|i: int|
                    0 <= i < details.genres@.len() ==> #[trigger] details@.genres[i]
                        == details.genres@[i]@
            },
            Reply::Unavailable => reply@ is Unavailable,
        },
{
}

} // verus!
