//! File and directory names that are safe on common filesystems.

use vstd::prelude::*;

use crate::text::{char_vec, is_white_space, skip_leading_white, string_of};

verus! {

/// The longest name that [`sanitize`] gives, in characters.
pub const MAX_NAME: usize = 180;

/// Characters that no name may hold: `<>:"/\|?*` and the ASCII control characters.
pub open spec fn is_illegal(c: char) -> bool {
    ||| c == '<'
    ||| c == '>'
    ||| c == ':'
    ||| c == '"'
    ||| c == '/'
    ||| c == '\\'
    ||| c == '|'
    ||| c == '?'
    ||| c == '*'
    ||| (c as u32) < 0x20
}

/// `_` for an illegal character, any other character unchanged.
pub open spec fn clean(c: char) -> char {
    if is_illegal(c) {
        '_'
    } else {
        c
    }
}

/// `s` with each illegal character replaced.
pub open spec fn cleaned(s: Seq<char>) -> Seq<char> {
    s.map_values(|c: char| clean(c))
}

/// Characters that no name may end in: white space and the dot.
pub open spec fn is_untidy(c: char) -> bool {
    crate::text::is_white(c) || c == '.'
}

/// At most the first [`MAX_NAME`] characters of `s`.
pub open spec fn capped(s: Seq<char>) -> Seq<char> {
    if s.len() <= MAX_NAME {
        s
    } else {
        s.take(MAX_NAME as int)
    }
}

/// What is left of `s` cleaned, without the white space in front, capped, and then without the
/// white space and the dots at its end.
pub open spec fn trimmed(s: Seq<char>) -> Seq<char> {
    crate::text::trim_end(
        capped(crate::text::trim_start(cleaned(s), |c: char| crate::text::is_white(c))),
        |c: char| is_untidy(c),
    )
}

/// The name that stands for the text `s`; `_` where nothing is left of it.
pub open spec fn sanitized(s: Seq<char>) -> Seq<char> {
    if trimmed(s).len() == 0 {
        seq!['_']
    } else {
        trimmed(s)
    }
}

/// The extension of every file of the library, with its dot.
pub open spec fn ogg() -> Seq<char> {
    seq!['.', 'o', 'g', 'g']
}

/// `s` without the extension `.ogg`, where it has it.
pub open spec fn without_ogg(s: Seq<char>) -> Seq<char> {
    if ogg().is_suffix_of(s) {
        s.take(s.len() - ogg().len())
    } else {
        s
    }
}

/// The file name that stands for the text `s`.
pub open spec fn sanitized_filename(s: Seq<char>) -> Seq<char> {
    sanitized(without_ogg(s)) + ogg()
}

fn clean_char(c: char) -> (cleaned: char)
    ensures
        cleaned == clean(c),
{
    if c == '<' || c == '>' || c == ':' || c == '"' || c == '/' || c == '\\' || c == '|' || c == '?'
        || c == '*' || (c as u32) < 0x20 {
        '_'
    } else {
        c
    }
}

/// The index before the trailing white space and dots of `chars[lo..hi]`.
fn skip_untidy_end(chars: &Vec<char>, lo: usize, hi: usize) -> (end: usize)
    requires
        lo <= hi <= chars.len(),
    ensures
        lo <= end <= hi,
        chars@.subrange(lo as int, end as int) == crate::text::trim_end(
            chars@.subrange(lo as int, hi as int),
            |c: char| is_untidy(c),
        ),
{
    let mut end: usize = hi;
    while lo < end && (chars[end - 1] == '.' || is_white_space(chars[end - 1]))
        invariant
            lo <= end <= hi <= chars.len(),
            crate::text::trim_end(
                chars@.subrange(lo as int, end as int),
                |c: char| is_untidy(c),
            ) == crate::text::trim_end(
                chars@.subrange(lo as int, hi as int),
                |c: char| is_untidy(c),
            ),
        decreases end,
    {
        assert(chars@.subrange(lo as int, end as int).drop_last() == chars@.subrange(
            lo as int,
            end - 1,
        ));
        end = end - 1;
    }
    end
}

/// Sanitizes a single path component, a directory or the title portion of a file name: replaces
/// the characters that are illegal on common filesystems, trims leading white space and trailing
/// white space and dots, and caps the length. The result is never empty.
pub fn sanitize(component: &str) -> (name: String)
    ensures
        name@ == sanitized(component@),
{
    let chars = char_vec(component);
    let mut kept: Vec<char> = Vec::new();
    let mut i: usize = 0;
    while i < chars.len()
        invariant
            i <= chars.len(),
            kept@ == cleaned(chars@.take(i as int)),
        decreases chars.len() - i,
    {
        kept.push(clean_char(chars[i]));
        i = i + 1;
        assert(chars@.take(i as int).drop_last() == chars@.take(i - 1));
        assert(kept@ == cleaned(chars@.take(i as int)));
    }
    assert(chars@.take(chars.len() as int) == chars@);
    assert(kept@.subrange(0, kept.len() as int) == kept@);
    let lo = skip_leading_white(&kept, 0, kept.len());
    let hi = if kept.len() - lo <= MAX_NAME {
        kept.len()
    } else {
        assert(kept@.subrange(lo as int, kept.len() as int).take(MAX_NAME as int) == kept@.subrange(
            lo as int,
            lo + MAX_NAME,
        ));
        lo + MAX_NAME
    };
    let end = skip_untidy_end(&kept, lo, hi);
    assert(kept@.subrange(lo as int, end as int) == trimmed(component@));
    if lo == end {
        let mut name = String::new();
        name.push('_');
        name
    } else {
        string_of(&kept, lo, end)
    }
}

/// Sanitizes a full file name, keeping the extension `.ogg` intact; a name without it gets it.
pub fn sanitize_filename(filename: &str) -> (name: String)
    ensures
        name@ == sanitized_filename(filename@),
{
    let chars = char_vec(filename);
    let n = chars.len();
    let mut name = if n >= 4 && chars[n - 4] == '.' && chars[n - 3] == 'o' && chars[n - 2] == 'g'
        && chars[n - 1] == 'g' {
        assert(ogg().is_suffix_of(chars@)) by {
            assert(chars@.subrange(n - 4, n as int) == ogg());
        }
        let stem = string_of(&chars, 0, n - 4);
        assert(stem@ == filename@.take(n - 4));
        sanitize(stem.as_str())
    } else {
        assert(!ogg().is_suffix_of(chars@)) by {
            if ogg().is_suffix_of(chars@) {
                assert(ogg()[0] == '.' && ogg()[1] == 'o' && ogg()[2] == 'g' && ogg()[3] == 'g');
                assert(chars@.subrange(n - 4, n as int) == ogg());
                assert(chars@[n - 4] == ogg()[0]);
                assert(chars@[n - 3] == ogg()[1]);
                assert(chars@[n - 2] == ogg()[2]);
                assert(chars@[n - 1] == ogg()[3]);
            }
        }
        sanitize(filename)
    };
    let ghost stem = name@;
    name.push('.');
    name.push('o');
    name.push('g');
    name.push('g');
    assert(name@ == stem + ogg());
    name
}

/// A name that [`sanitize`] leaves as it is.
pub open spec fn is_tidy(s: Seq<char>) -> bool {
    &&& 1 <= s.len() <= MAX_NAME
    &&& forall|i: int| 0 <= i < s.len() ==> !is_illegal(#[trigger] s[i])
    &&& !crate::text::is_white(s.first())
    &&& ends_tidily(s)
}

/// `s` ends neither in white space nor in a dot.
pub open spec fn ends_tidily(s: Seq<char>) -> bool {
    !is_untidy(s.last())
}

/// Every text gets a tidy name: never empty nor longer than [`MAX_NAME`] characters, without an
/// illegal character, without white space in front, and without white space or a dot at its end.
pub proof fn sanitized_is_tidy(s: Seq<char>)
    ensures
        is_tidy(sanitized(s)),
{
    let white = |c: char| crate::text::is_white(c);
    let untidy = |c: char| is_untidy(c);
    let c = cleaned(s);
    let a = crate::text::trim_start(c, white);
    let b = capped(a);
    let t = trimmed(s);
    crate::text::trim_start_keeps_a_suffix(c, white);
    crate::text::trim_end_keeps_a_prefix(b, untidy);
    assert(t == crate::text::trim_end(b, untidy));
    if t.len() > 0 {
        assert(t.first() == a.first());
        assert forall|i: int| 0 <= i < t.len() implies !is_illegal(#[trigger] t[i]) by {
            let k = i + (c.len() - a.len());
            assert(t[i] == b[i] && b[i] == a[i] && a[i] == c[k]);
            assert(c[k] == clean(s[k]));
        }
    }
}

/// No name ends in white space or in a dot, not even where the cap uncovered one.
pub proof fn sanitized_ends_tidily(s: Seq<char>)
    ensures
        ends_tidily(sanitized(s)),
{
    sanitized_is_tidy(s);
}

/// Every text gets a name that is one path component, neither `.` nor `..`.
pub proof fn sanitized_is_a_file_name(s: Seq<char>)
    ensures
        crate::path::is_file_name(sanitized(s)),
{
    sanitized_is_tidy(s);
    let name = sanitized(s);
    if name.contains('/') {
        let i = choose|i: int| 0 <= i < name.len() && name[i] == '/';
        assert(is_illegal(name[i]));
    }
}

/// [`sanitize`] leaves exactly the tidy names as they are.
pub proof fn sanitized_keeps_tidy_names(s: Seq<char>)
    ensures
        sanitized(s) == s <==> is_tidy(s),
{
    sanitized_is_tidy(s);
    if is_tidy(s) {
        assert(cleaned(s) == s);
    }
}

/// Sanitizing twice is sanitizing once.
pub proof fn sanitized_twice(s: Seq<char>)
    ensures
        sanitized(sanitized(s)) == sanitized(s),
{
    sanitized_is_tidy(s);
    sanitized_keeps_tidy_names(sanitized(s));
}

/// A file name is a name and the extension: it is never the extension alone, holds no illegal
/// character and is at most four characters longer than a name.
pub proof fn sanitized_filename_is_a_name(s: Seq<char>)
    ensures
        ogg().is_suffix_of(sanitized_filename(s)),
        5 <= sanitized_filename(s).len() <= MAX_NAME + 4,
        forall|i: int|
            0 <= i < sanitized_filename(s).len() ==> !is_illegal(
                #[trigger] sanitized_filename(s)[i],
            ),
{
    let stem = sanitized(without_ogg(s));
    sanitized_is_tidy(without_ogg(s));
    let f = sanitized_filename(s);
    assert(f.subrange(f.len() - 4, f.len() as int) == ogg());
    assert forall|i: int| 0 <= i < f.len() implies !is_illegal(#[trigger] f[i]) by {
        if i < stem.len() {
            assert(f[i] == stem[i]);
        } else {
            assert(f[i] == ogg()[i - stem.len()]);
        }
    }
}

/// Exactly `<`, `>`, `:`, `"`, `/`, `\\`, `|`, `?`, `*` and the characters below the space are
/// illegal.
pub proof fn illegal_characters_are_these(c: char)
    ensures
        is_illegal(c) <==> "<>:\"/\\|?*"@.contains(c) || (c as u32) < 0x20,
{
    reveal_strlit("<>:\"/\\|?*");
    let all = "<>:\"/\\|?*"@;
    assert(all.len() == 9);
    assert(all[0] == '<' && all[1] == '>' && all[2] == ':' && all[3] == '"' && all[4] == '/'
        && all[5] == '\\' && all[6] == '|' && all[7] == '?' && all[8] == '*');
}

/// What becomes of every text: the name is the stretch of it from `start` to `end`, in which each
/// illegal character is `_` and each other character is kept, or `_` where that stretch is empty.
/// The stretch begins with the first character that is not white space. It ends with the last of
/// the next 180 characters that is neither white space nor a dot. (White space below the space
/// character is illegal, so it is replaced and not trimmed.)
pub proof fn sanitized_is_a_stretch_of_the_text(s: Seq<char>) -> (stretch: (int, int))
    ensures
        ({
            let (start, end) = stretch;
            &&& 0 <= start <= end <= s.len()
            &&& end <= start + 180
            &&& forall|i: int|
                0 <= i < start ==> crate::text::is_white(#[trigger] s[i]) && (s[i] as u32) >= 0x20
            &&& start < s.len() ==> !crate::text::is_white(s[start]) || (s[start] as u32) < 0x20
            &&& forall|i: int|
                end <= i < s.len() && i < start + 180 ==> {
                    ||| #[trigger] s[i] == '.'
                    ||| crate::text::is_white(s[i]) && (s[i] as u32) >= 0x20
                }
            &&& start < end ==> s[end - 1] != '.' && (!crate::text::is_white(s[end - 1]) || (s[end
                - 1] as u32) < 0x20)
            &&& start == end ==> sanitized(s) == "_"@
            &&& start < end ==> sanitized(s).len() == end - start
            &&& start < end ==> forall|i: int|
                start <= i < end ==> #[trigger] sanitized(s)[i - start] == if "<>:\"/\\|?*"@.contains(
                    s[i],
                ) || (s[i] as u32) < 0x20 {
                    '_'
                } else {
                    s[i]
                }
        }),
{
    reveal_strlit("_");
    let white = |c: char| crate::text::is_white(c);
    let untidy = |c: char| is_untidy(c);
    let c = cleaned(s);
    let a = crate::text::trim_start(c, white);
    let b = capped(a);
    let t = trimmed(s);
    crate::text::trim_start_keeps_a_suffix(c, white);
    crate::text::trim_end_keeps_a_prefix(b, untidy);
    let start = c.len() - a.len();
    let end = start + t.len();
    assert forall|i: int| 0 <= i < s.len() implies {
        &&& #[trigger] c[i] == if "<>:\"/\\|?*"@.contains(s[i]) || (s[i] as u32) < 0x20 {
            '_'
        } else {
            s[i]
        }
        &&& crate::text::is_white(c[i]) <==> crate::text::is_white(s[i]) && (s[i] as u32) >= 0x20
        &&& c[i] == '.' <==> s[i] == '.'
    } by {
        illegal_characters_are_these(s[i]);
    }
    assert forall|i: int| 0 <= i < start implies crate::text::is_white(#[trigger] s[i]) && (
    s[i] as u32) >= 0x20 by {
        assert(white(c[i]));
    }
    assert forall|i: int| end <= i < s.len() && i < start + 180 implies {
        ||| #[trigger] s[i] == '.'
        ||| crate::text::is_white(s[i]) && (s[i] as u32) >= 0x20
    } by {
        assert(b[i - start] == c[i]);
        assert(untidy(b[i - start]));
    }
    if start < s.len() {
        assert(a.first() == c[start]);
    }
    if start < end {
        assert(t.last() == b[end - start - 1]);
        assert(b[end - start - 1] == c[end - 1]);
        assert forall|i: int| start <= i < end implies #[trigger] sanitized(s)[i - start] == if
            "<>:\"/\\|?*"@.contains(s[i]) || (s[i] as u32) < 0x20 {
            '_'
        } else {
            s[i]
        } by {
            assert(t[i - start] == c[i]);
        }
    }
    (start, end)
}

/// A text of at most 180 characters that has nothing to trim keeps its length and each of its
/// characters, but for the illegal ones, which become `_`.
pub proof fn sanitized_changes_illegal_characters_only(s: Seq<char>)
    requires
        1 <= s.len() <= 180,
        !crate::text::is_white(s.first()),
        !crate::text::is_white(s.last()),
        s.last() != '.',
    ensures
        sanitized(s).len() == s.len(),
        forall|i: int|
            0 <= i < s.len() ==> #[trigger] sanitized(s)[i] == if "<>:\"/\\|?*"@.contains(s[i]) || (
            s[i] as u32) < 0x20 {
                '_'
            } else {
                s[i]
            },
{
    let (start, end) = sanitized_is_a_stretch_of_the_text(s);
    assert(start == 0);
    assert(end == s.len());
    assert forall|i: int| 0 <= i < s.len() implies #[trigger] sanitized(s)[i] == if
        "<>:\"/\\|?*"@.contains(s[i]) || (s[i] as u32) < 0x20 {
        '_'
    } else {
        s[i]
    } by {
        assert(sanitized(s)[i - start] == sanitized(s)[i]);
    }
}

/// A name that ends in `.ogg` keeps that ending, behind the sanitized rest.
pub proof fn sanitized_filename_keeps_the_extension(stem: Seq<char>)
    ensures
        sanitized_filename(stem + ".ogg"@) == sanitized(stem) + ".ogg"@,
{
    reveal_strlit(".ogg");
    let full = stem + ".ogg"@;
    assert(".ogg"@ == ogg());
    assert(full.subrange(stem.len() as int, full.len() as int) == ogg());
    assert(full.take(stem.len() as int) == stem);
}

/// A name that does not end in `.ogg` is sanitized in full and gets that ending.
pub proof fn sanitized_filename_adds_the_extension(s: Seq<char>)
    requires
        !(".ogg"@.is_suffix_of(s)),
    ensures
        sanitized_filename(s) == sanitized(s) + ".ogg"@,
{
    reveal_strlit(".ogg");
    assert(".ogg"@ == ogg());
}

} // verus!
