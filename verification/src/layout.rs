//! Where a captured track goes:
//! `<root>/<AlbumArtist>/<Album>/<Disc#>.<Track##> - <Title>.ogg`.

use vstd::prelude::*;

use crate::naming::{sanitize, sanitize_filename};
use crate::path::{join, Destination, DestinationView};
use crate::request::{TagRequest, TagRequestView};
use crate::text::{decimal_text, decimal_two_text};

verus! {

/// The artist to file a track under: the first album artist, else the first artist of the track.
pub open spec fn filing_artist(r: TagRequestView) -> Seq<char> {
    if r.album_artists.len() > 0 {
        r.album_artists.first()
    } else if r.artists.len() > 0 {
        r.artists.first()
    } else {
        "Unknown Artist"@
    }
}

/// The album to file a track under.
pub open spec fn filing_album(r: TagRequestView) -> Seq<char> {
    match r.album {
        Some(album) => album,
        None => "Unknown Album"@,
    }
}

/// The number of the disc; the first where it is not known.
pub open spec fn disc(r: TagRequestView) -> nat {
    if r.disc_number > 0 {
        r.disc_number as nat
    } else {
        1
    }
}

/// `<Disc#>.<Track##> - <Title>`
pub open spec fn numbered_title(r: TagRequestView) -> Seq<char> {
    crate::text::decimal(disc(r)) + "."@ + crate::text::decimal_two(r.track_number) + " - "@
        + crate::naming::sanitized(r.title)
}

/// The directory of a track: `<root>/<AlbumArtist>/<Album>`.
pub open spec fn organized_directory(r: TagRequestView) -> Seq<char> {
    crate::path::joined(
        crate::path::joined(r.output_root, crate::naming::sanitized(filing_artist(r))),
        crate::naming::sanitized(filing_album(r)),
    )
}

/// The file name of a track.
pub open spec fn organized_file_name(r: TagRequestView) -> Seq<char> {
    crate::naming::sanitized_filename(numbered_title(r) + ".ogg"@)
}

/// Where a track goes.
pub open spec fn organized(r: TagRequestView) -> DestinationView {
    crate::path::file_in(organized_directory(r), organized_file_name(r))
}

/// Computes the organized destination of a track:
/// `<root>/<AlbumArtist>/<Album>/<Disc#>.<Track##> - <Title>.ogg`.
pub fn organized_destination(request: &TagRequest) -> (dest: Destination)
    ensures
        dest@ == organized(request@),
{
    let artist = if request.album_artists.len() > 0 {
        sanitize(request.album_artists[0].as_str())
    } else if request.artists.len() > 0 {
        sanitize(request.artists[0].as_str())
    } else {
        sanitize("Unknown Artist")
    };
    let album = match &request.album {
        Some(album) => sanitize(album.as_str()),
        None => sanitize("Unknown Album"),
    };
    let disc: u32 = if request.disc_number > 0 {
        request.disc_number as u32
    } else {
        1
    };

    let mut name = decimal_text(disc);
    name.append(".");
    name.append(decimal_two_text(request.track_number).as_str());
    name.append(" - ");
    name.append(sanitize(request.title.as_str()).as_str());
    name.append(".ogg");
    let file_name = sanitize_filename(name.as_str());

    let directory = join(join(request.output_root.as_str(), artist.as_str()).as_str(), album.as_str());
    proof {
        organized_name_is_a_file_name(request@);
    }
    Destination::in_directory(directory.as_str(), file_name.as_str())
}

/// Every track has a proper file name.
pub proof fn organized_name_is_a_file_name(r: TagRequestView)
    ensures
        crate::path::is_file_name(organized_file_name(r)),
{
    crate::naming::sanitized_filename_is_a_name(numbered_title(r) + ".ogg"@);
    let name = organized_file_name(r);
    if name.contains('/') {
        let i = choose|i: int| 0 <= i < name.len() && name[i] == '/';
        assert(crate::naming::is_illegal(name[i]));
    }
}

/// The file name, without the extension, is the sanitized `<Disc#>.<Track##> - <Title>`, and
/// the extension is `ogg`.
pub proof fn organized_stem_and_extension(r: TagRequestView)
    ensures
        organized_file_name(r) == crate::naming::sanitized(numbered_title(r)) + ".ogg"@,
        organized(r).stem == Some(crate::naming::sanitized(numbered_title(r))),
        organized(r).extension == Some("ogg"@),
{
    reveal_strlit(".ogg");
    reveal_strlit("ogg");
    assert(".ogg"@ == crate::naming::ogg());
    let title = numbered_title(r);
    let full = title + ".ogg"@;
    assert(full.subrange(title.len() as int, full.len() as int) == crate::naming::ogg());
    assert(full.take(title.len() as int) == title);
    let stem = crate::naming::sanitized(title);
    crate::naming::sanitized_is_tidy(title);
    let name = organized_file_name(r);
    assert(name == stem + ".ogg"@);
    let n = name.len() as int;
    assert(name[n - 1] == 'g' && name[n - 2] == 'g' && name[n - 3] == 'o' && name[n - 4] == '.');
    let a = name.drop_last();
    let b = a.drop_last();
    let c = b.drop_last();
    assert(a.last() == 'g' && b.last() == 'o' && c.last() == '.');
    assert(crate::path::final_dot(c) == Some(n - 4));
    assert(crate::path::final_dot(b) == Some(n - 4));
    assert(crate::path::final_dot(a) == Some(n - 4));
    assert(crate::path::final_dot(name) == Some(n - 4));
    assert(name.take(n - 4) == stem);
    assert(name.skip(n - 3) == "ogg"@);
}

/// A title short enough to leave room for the numbers stands in full in the file name,
/// `<Disc#>.<Track##> - <Title>.ogg`; and no other does.
pub proof fn organized_file_name_is_numbered_title(r: TagRequestView)
    ensures
        organized_file_name(r) == numbered_title(r) + ".ogg"@ <==> numbered_title(r).len()
            <= crate::naming::MAX_NAME,
{
    reveal_strlit(".");
    reveal_strlit(" - ");
    reveal_strlit(".ogg");
    organized_stem_and_extension(r);
    let full = numbered_title(r);
    let stem = crate::naming::sanitized(full);
    let number = crate::text::decimal(disc(r));
    let track = crate::text::decimal_two(r.track_number);
    let title = crate::naming::sanitized(r.title);
    crate::text::decimal_is_digits(disc(r));
    crate::text::decimal_is_digits(r.track_number);
    crate::naming::sanitized_is_tidy(r.title);
    crate::naming::sanitized_keeps_tidy_names(full);
    assert(full.last() == title.last());
    assert(full.first() == number.first());
    assert forall|i: int| 0 <= i < full.len() implies !crate::naming::is_illegal(
        #[trigger] full[i],
    ) by {
        let a = number.len() as int;
        let b = a + 1;
        let c = b + track.len();
        let d = c + 3;
        if i < a {
            assert(full[i] == number[i]);
        } else if i < b {
            assert(full[i] == '.');
        } else if i < c {
            assert(full[i] == track[i - b]);
        } else if i < d {
            assert(full[i] == " - "@[i - c]);
        } else {
            assert(full[i] == title[i - d]);
        }
    }
    if organized_file_name(r) == full + ".ogg"@ {
        assert(organized_file_name(r).take(full.len() as int) == full);
        assert((stem + ".ogg"@).len() == (full + ".ogg"@).len());
        assert((stem + ".ogg"@).take(stem.len() as int) == stem);
    }
}

/// The path of every track is the output root and three components, one separator apart: the
/// name of its artist, the name of its album, and its file name, which ends in `.ogg`. Each of the
/// three is an ordinary file name, so the path leaves the root downwards only.
pub proof fn organized_path_is_the_layout(r: TagRequestView)
    ensures
        ({
            let root = r.output_root;
            let separator = if root.len() == 0 || root.last() == '/' {
                seq![]
            } else {
                seq!['/']
            };
            organized(r).path == root + separator + crate::naming::sanitized(filing_artist(r)) + seq![
                '/',
            ] + crate::naming::sanitized(filing_album(r)) + seq!['/'] + organized_file_name(r)
        }),
        crate::path::is_file_name(crate::naming::sanitized(filing_artist(r))),
        crate::path::is_file_name(crate::naming::sanitized(filing_album(r))),
        crate::path::is_file_name(organized_file_name(r)),
        crate::naming::ogg().is_suffix_of(organized_file_name(r)),
{
    let artist = crate::naming::sanitized(filing_artist(r));
    let album = crate::naming::sanitized(filing_album(r));
    let name = organized_file_name(r);
    crate::naming::sanitized_is_tidy(filing_artist(r));
    crate::naming::sanitized_is_tidy(filing_album(r));
    crate::naming::sanitized_is_a_file_name(filing_artist(r));
    crate::naming::sanitized_is_a_file_name(filing_album(r));
    organized_name_is_a_file_name(r);
    crate::naming::sanitized_filename_is_a_name(numbered_title(r) + ".ogg"@);
    assert(!crate::naming::is_illegal(artist[0]));
    assert(!crate::naming::is_illegal(artist[artist.len() - 1]));
    assert(!crate::naming::is_illegal(album[0]));
    assert(!crate::naming::is_illegal(album[album.len() - 1]));
    assert(!crate::naming::is_illegal(name[0]));
    let one = crate::path::joined(r.output_root, artist);
    let two = crate::path::joined(one, album);
    assert(one.last() == artist.last());
    assert(two.last() == album.last());
    let root = r.output_root;
    let separator = if root.len() == 0 || root.last() == '/' {
        seq![]
    } else {
        seq!['/']
    };
    assert(one == root + separator + artist);
}

/// Where every track goes, spelled out: below the root the name of its first album artist, or of
/// its first artist where it has no album artist, or `Unknown Artist` where it has neither; below
/// that the name of its album, or `Unknown Album`; and in there the file, named by the disc (one
/// where it is not known), the track in two digits, and the title.
pub proof fn tracks_are_filed_by_artist_album_and_number(r: TagRequestView)
    ensures
        ({
            let root = if r.output_root.len() == 0 || r.output_root[r.output_root.len() - 1] == '/' {
                r.output_root
            } else {
                r.output_root + "/"@
            };
            let album = crate::naming::sanitized(
                match r.album {
                    Some(text) => text,
                    None => "Unknown Album"@,
                },
            );
            let number = crate::text::decimal(
                if r.disc_number > 0 {
                    r.disc_number as nat
                } else {
                    1
                },
            ) + "."@ + crate::text::decimal_two(r.track_number);
            let stem = crate::naming::sanitized(
                number + " - "@ + crate::naming::sanitized(r.title),
            );
            let artist = crate::naming::sanitized(
                if r.album_artists.len() > 0 {
                    r.album_artists[0]
                } else if r.artists.len() > 0 {
                    r.artists[0]
                } else {
                    "Unknown Artist"@
                },
            );
            let directory = root + artist + "/"@ + album;
            &&& organized(r).parent == Some(directory)
            &&& organized(r).path == directory + "/"@ + stem + ".ogg"@
            &&& organized(r).stem == Some(stem)
            &&& organized(r).extension == Some("ogg"@)
        }),
{
    reveal_strlit("/");
    let artist = crate::naming::sanitized(filing_artist(r));
    let album = crate::naming::sanitized(filing_album(r));
    organized_path_is_the_layout(r);
    organized_stem_and_extension(r);
    crate::naming::sanitized_is_tidy(filing_artist(r));
    crate::naming::sanitized_is_tidy(filing_album(r));
    assert(!crate::naming::is_illegal(artist[0]));
    assert(!crate::naming::is_illegal(artist[artist.len() - 1]));
    assert(!crate::naming::is_illegal(album[0]));
    assert("/"@ == seq!['/']);
    let root = if r.output_root.len() == 0 || r.output_root[r.output_root.len() - 1] == '/' {
        r.output_root
    } else {
        r.output_root + "/"@
    };
    let one = crate::path::joined(r.output_root, artist);
    assert(one == root + artist);
    assert(one.last() == artist.last());
    assert(organized_directory(r) == root + artist + "/"@ + album);
    assert(organized(r).path == root + artist + "/"@ + album + "/"@ + organized_file_name(r));
    assert(organized(r).path == root + artist + "/"@ + album + "/"@ + crate::naming::sanitized(
        numbered_title(r),
    ) + ".ogg"@);
}

/// The title stands in full in the file name wherever disc, track and title have room in 180
/// characters.
pub proof fn file_names_spell_disc_track_and_title(r: TagRequestView)
    requires
        r.disc_number > 0,
        crate::text::decimal(r.disc_number as nat).len() + crate::text::decimal_two(
            r.track_number,
        ).len() + 4 + crate::naming::sanitized(r.title).len() <= 180,
    ensures
        organized(r).stem == Some(
            crate::text::decimal(r.disc_number as nat) + "."@ + crate::text::decimal_two(
                r.track_number,
            ) + " - "@ + crate::naming::sanitized(r.title),
        ),
{
    reveal_strlit(".");
    reveal_strlit(" - ");
    reveal_strlit(".ogg");
    organized_file_name_is_numbered_title(r);
    organized_stem_and_extension(r);
    let full = numbered_title(r);
    let stem = crate::naming::sanitized(full);
    assert((stem + ".ogg"@).len() == (full + ".ogg"@).len());
    assert((stem + ".ogg"@).take(stem.len() as int) == stem);
    assert((full + ".ogg"@).take(full.len() as int) == full);
}

proof fn decimal_is_short(n: nat)
    requires
        n <= u32::MAX,
    ensures
        crate::text::decimal(n).len() <= 10,
        crate::text::decimal_two(n).len() <= 10,
{
    reveal_with_fuel(crate::text::decimal, 10);
}

/// The disc and the track of a file name, and the dash behind them.
spec fn lead(r: TagRequestView) -> Seq<char> {
    crate::text::decimal(disc(r)) + seq!['.'] + crate::text::decimal_two(r.track_number) + seq![
        ' ',
        '-',
    ]
}

proof fn names_begin_with_their_numbers(r: TagRequestView)
    requires
        r.disc_number <= i32::MAX,
        r.track_number <= u32::MAX,
    ensures
        lead(r).len() <= crate::naming::sanitized(numbered_title(r)).len(),
        forall|i: int|
            0 <= i < lead(r).len() ==> crate::naming::sanitized(numbered_title(r))[i]
                == #[trigger] lead(r)[i],
{
    reveal_strlit(".");
    reveal_strlit(" - ");
    let number = crate::text::decimal(disc(r));
    let track = crate::text::decimal_two(r.track_number);
    let full = numbered_title(r);
    let head = lead(r);
    decimal_is_short(disc(r));
    decimal_is_short(r.track_number);
    crate::text::decimal_is_digits(disc(r));
    crate::text::decimal_two_spells_the_number(r.track_number);
    crate::naming::sanitized_is_tidy(r.title);
    let a = number.len() as int;
    let c = a + 1 + track.len();
    assert forall|i: int| 0 <= i < head.len() implies {
        &&& full[i] == #[trigger] head[i]
        &&& !crate::naming::is_illegal(head[i])
    } by {
        if i < a {
            assert(full[i] == number[i] && head[i] == number[i]);
        } else if i == a {
            assert(full[i] == '.' && head[i] == '.');
        } else if i < c {
            assert(full[i] == track[i - a - 1] && head[i] == track[i - a - 1]);
        } else {
            assert(full[i] == " - "@[i - c] && head[i] == seq![' ', '-'][i - c]);
        }
    }
    let (start, end) = crate::naming::sanitized_is_a_stretch_of_the_text(full);
    assert(full[0] == head[0] && head[0] == number[0]);
    assert(start == 0);
    let dash = head.len() - 1;
    assert(full[dash] == head[dash] && head[dash] == '-');
    assert(end >= head.len());
    assert forall|i: int| 0 <= i < head.len() implies crate::naming::sanitized(full)[i]
        == #[trigger] head[i] by {
        crate::naming::illegal_characters_are_these(full[i]);
        assert(full[i] == head[i]);
        assert(crate::naming::sanitized(full)[i - start] == full[i]);
    }
}

proof fn leads_tell_the_numbers(r: TagRequestView, q: TagRequestView, name: Seq<char>)
    requires
        lead(r).len() <= name.len(),
        lead(q).len() <= name.len(),
        forall|i: int| 0 <= i < lead(r).len() ==> name[i] == #[trigger] lead(r)[i],
        forall|i: int| 0 <= i < lead(q).len() ==> name[i] == #[trigger] lead(q)[i],
    ensures
        disc(r) == disc(q),
        r.track_number == q.track_number,
{
    let one = crate::text::decimal(disc(r));
    let other = crate::text::decimal(disc(q));
    let track = crate::text::decimal_two(r.track_number);
    let second = crate::text::decimal_two(q.track_number);
    crate::text::decimal_is_digits(disc(r));
    crate::text::decimal_is_digits(disc(q));
    crate::text::decimal_two_spells_the_number(r.track_number);
    crate::text::decimal_two_spells_the_number(q.track_number);
    let a = one.len() as int;
    let b = other.len() as int;
    assert(lead(r)[a] == '.' && lead(q)[b] == '.');
    assert(a == b) by {
        if a < b {
            assert(lead(q)[a] == other[a]);
        } else if b < a {
            assert(lead(r)[b] == one[b]);
        }
    }
    assert(one == other) by {
        assert forall|i: int| 0 <= i < a implies one[i] == other[i] by {
            assert(lead(r)[i] == one[i] && lead(q)[i] == other[i]);
        }
    }
    crate::text::decimal_is_injective(disc(r), disc(q));
    let c = track.len() as int;
    let d = second.len() as int;
    assert(lead(r)[a + 1 + c] == ' ' && lead(q)[a + 1 + d] == ' ');
    assert(c == d) by {
        if c < d {
            assert(lead(q)[a + 1 + c] == second[c]);
        } else if d < c {
            assert(lead(r)[a + 1 + d] == track[d]);
        }
    }
    assert(track == second) by {
        assert forall|i: int| 0 <= i < c implies track[i] == second[i] by {
            assert(lead(r)[a + 1 + i] == track[i] && lead(q)[a + 1 + i] == second[i]);
        }
    }
}

/// Tracks with different numbers have different file names, whatever their titles: no two tracks of
/// one album get in each other's way.
pub proof fn tracks_with_different_numbers_differ(r: TagRequestView, q: TagRequestView)
    requires
        0 < r.disc_number <= i32::MAX,
        0 < q.disc_number <= i32::MAX,
        r.track_number <= u32::MAX,
        q.track_number <= u32::MAX,
        r.disc_number != q.disc_number || r.track_number != q.track_number,
    ensures
        organized(r).stem != organized(q).stem,
{
    organized_stem_and_extension(r);
    organized_stem_and_extension(q);
    if organized(r).stem == organized(q).stem {
        names_begin_with_their_numbers(r);
        names_begin_with_their_numbers(q);
        leads_tell_the_numbers(r, q, crate::naming::sanitized(numbered_title(r)));
    }
}

} // verus!
