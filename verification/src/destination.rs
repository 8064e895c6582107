//! The choice of a file name that does not exist yet.

use vstd::prelude::*;

use crate::path::{join, Destination, DestinationView};
use crate::request::TagRequestView;
use crate::text::decimal_text;

verus! {

/// The number of names that can be tried: the file name itself, and then with ` (2)`, ` (3)`, and
/// so on, up to the greatest number that an attempt can have.
pub const LAST_ATTEMPT: u32 = 4_294_967_295;

/// `text` where there is one, else `default`.
pub open spec fn text_or(text: Option<Seq<char>>, default: Seq<char>) -> Seq<char> {
    match text {
        Some(t) => t,
        None => default,
    }
}

/// The file name with ` (n)` before the extension.
pub open spec fn numbered_name(dest: DestinationView, n: nat) -> Seq<char> {
    text_or(dest.stem, "capture"@) + " ("@ + crate::text::decimal(n) + ")."@ + text_or(
        dest.extension,
        "ogg"@,
    )
}

/// The path with ` (n)` before the extension.
pub open spec fn numbered_path(dest: DestinationView, n: nat) -> Seq<char> {
    crate::path::joined(text_or(dest.parent, "."@), numbered_name(dest, n))
}

/// The path to try at an attempt: the destination itself at the first, a numbered one after it.
pub open spec fn candidate(dest: DestinationView, attempt: nat) -> Seq<char> {
    if attempt <= 1 {
        dest.path
    } else {
        numbered_path(dest, attempt)
    }
}

/// What to do next in the search for a free path.
#[derive(Clone, Debug)]
pub enum DestinationStep {
    /// See whether `path`, the candidate of `attempt`, exists.
    Check { attempt: u32, path: String },
    /// The search is over: `path` does not exist.
    Use { path: String },
    /// The search is over: every candidate exists.
    NoneFree,
}

/// The contents of a [`DestinationStep`].
#[verifier::ext_equal]
pub enum DestinationStepView {
    Check { attempt: nat, path: Seq<char> },
    Use { path: Seq<char> },
    NoneFree,
}

impl View for DestinationStep {
    type V = DestinationStepView;

    open spec fn view(&self) -> DestinationStepView {
        match self {
            DestinationStep::Check { attempt, path } => DestinationStepView::Check {
                attempt: *attempt as nat,
                path: path@,
            },
            DestinationStep::Use { path } => DestinationStepView::Use { path: path@ },
            DestinationStep::NoneFree => DestinationStepView::NoneFree,
        }
    }
}

/// The next step once it is known whether the candidate of `attempt` exists: a candidate that does
/// not is used, and one that does is followed by the next, if there is one.
pub open spec fn destination_step(
    dest: DestinationView,
    attempt: nat,
    exists: bool,
) -> DestinationStepView {
    if !exists {
        DestinationStepView::Use { path: candidate(dest, attempt) }
    } else if attempt < LAST_ATTEMPT {
        DestinationStepView::Check { attempt: attempt + 1, path: candidate(dest, attempt + 1) }
    } else {
        DestinationStepView::NoneFree
    }
}

fn optional_or(text: &Option<String>, default: &str) -> (value: String)
    ensures
        value@ == text_or(crate::text::optional_text(*text), default@),
{
    match text {
        Some(t) => t.clone(),
        None => default.to_owned(),
    }
}

fn candidate_path(dest: &Destination, attempt: u32) -> (path: String)
    ensures
        path@ == candidate(dest@, attempt as nat),
{
    if attempt <= 1 {
        return dest.path.clone();
    }
    let mut name = optional_or(&dest.stem, "capture");
    name.append(" (");
    name.append(decimal_text(attempt).as_str());
    name.append(").");
    name.append(optional_or(&dest.extension, "ogg").as_str());
    join(optional_or(&dest.parent, ".").as_str(), name.as_str())
}

/// Searches for a path that does not exist, so that capturing a track again never overwrites an
/// organized file: where `dest` exists, ` (2)`, ` (3)`, and so on goes before its extension, until
/// a free name is found.
///
/// Takes whether the candidate of `attempt` exists, and gives the next step. The first attempt is
/// `dest` itself.
pub fn unique_destination(dest: &Destination, attempt: u32, exists: bool) -> (step: DestinationStep)
    requires
        1 <= attempt,
    ensures
        step@ == destination_step(dest@, attempt as nat, exists),
{
    if !exists {
        DestinationStep::Use { path: candidate_path(dest, attempt) }
    } else if attempt < LAST_ATTEMPT {
        DestinationStep::Check { attempt: attempt + 1, path: candidate_path(dest, attempt + 1) }
    } else {
        DestinationStep::NoneFree
    }
}

/// The path that the search from `attempt` ends with, where `taken` tells which paths exist.
pub open spec fn search(
    dest: DestinationView,
    taken: spec_fn(Seq<char>) -> bool,
    attempt: nat,
) -> Option<Seq<char>>
    decreases LAST_ATTEMPT - attempt,
{
    match destination_step(dest, attempt, taken(candidate(dest, attempt))) {
        DestinationStepView::Check { attempt: next, .. } => if next <= LAST_ATTEMPT {
            search(dest, taken, next)
        } else {
            None
        },
        DestinationStepView::Use { path } => Some(path),
        DestinationStepView::NoneFree => None,
    }
}

/// The search ends with the first candidate that does not exist.
pub proof fn search_finds_the_first_free_path(
    dest: DestinationView,
    taken: spec_fn(Seq<char>) -> bool,
    attempt: nat,
    free: nat,
)
    requires
        1 <= attempt <= free <= LAST_ATTEMPT,
        !taken(candidate(dest, free)),
        forall|n: nat| attempt <= n < free ==> taken(#[trigger] candidate(dest, n)),
    ensures
        search(dest, taken, attempt) == Some(candidate(dest, free)),
    decreases free - attempt,
{
    if attempt < free {
        assert(taken(candidate(dest, attempt)));
        search_finds_the_first_free_path(dest, taken, attempt + 1, free);
    }
}

/// The search never ends with a path that exists.
pub proof fn search_never_ends_with_a_taken_path(
    dest: DestinationView,
    taken: spec_fn(Seq<char>) -> bool,
    attempt: nat,
)
    requires
        1 <= attempt <= LAST_ATTEMPT,
    ensures
        search(dest, taken, attempt) matches Some(path) ==> !taken(path),
    decreases LAST_ATTEMPT - attempt,
{
    if taken(candidate(dest, attempt)) && attempt < LAST_ATTEMPT {
        search_never_ends_with_a_taken_path(dest, taken, attempt + 1);
    }
}

/// The search ends without a path only where every candidate exists.
pub proof fn search_fails_only_where_all_are_taken(
    dest: DestinationView,
    taken: spec_fn(Seq<char>) -> bool,
    attempt: nat,
)
    requires
        1 <= attempt <= LAST_ATTEMPT,
    ensures
        search(dest, taken, attempt) is None <==> (forall|n: nat|
            attempt <= n <= LAST_ATTEMPT ==> taken(#[trigger] candidate(dest, n))),
    decreases LAST_ATTEMPT - attempt,
{
    if taken(candidate(dest, attempt)) && attempt < LAST_ATTEMPT {
        search_fails_only_where_all_are_taken(dest, taken, attempt + 1);
        if search(dest, taken, attempt) is None {
            assert forall|n: nat| attempt <= n <= LAST_ATTEMPT implies taken(
                #[trigger] candidate(dest, n),
            ) by {
                if n > attempt {
                    assert(attempt + 1 <= n);
                }
            }
        }
    }
}

proof fn equal_middles(a: Seq<char>, m: Seq<char>, n: Seq<char>, b: Seq<char>)
    requires
        a + m + b == a + n + b,
    ensures
        m == n,
{
    assert((a + m + b).len() == a.len() + m.len() + b.len());
    assert((a + n + b).len() == a.len() + n.len() + b.len());
    assert((a + m + b).subrange(a.len() as int, (a.len() + m.len()) as int) == m);
    assert((a + n + b).subrange(a.len() as int, (a.len() + n.len()) as int) == n);
}

/// Whether a destination has all parts of a file name, and consists of them.
pub open spec fn consists_of_its_parts(dest: DestinationView) -> bool {
    &&& dest.parent matches Some(parent)
    &&& dest.stem matches Some(stem)
    &&& dest.extension matches Some(extension)
    &&& dest.path == crate::path::joined(parent, stem + seq!['.'] + extension)
}

/// What stands before the extension of a candidate and its dot, behind the stem.
spec fn mark(attempt: nat) -> Seq<char> {
    if attempt <= 1 {
        seq![]
    } else {
        seq![' ', '('] + crate::text::decimal(attempt) + seq![')']
    }
}

/// What stands before the stem of every candidate.
spec fn lead(parent: Seq<char>, stem: Seq<char>) -> Seq<char> {
    if stem.len() > 0 && stem.first() == '/' {
        seq![]
    } else if parent.len() == 0 || parent.last() == '/' {
        parent
    } else {
        parent + seq!['/']
    }
}

proof fn candidate_is_marked(dest: DestinationView, n: nat)
    requires
        1 <= n,
        consists_of_its_parts(dest),
    ensures
        candidate(dest, n) == lead(dest.parent->0, dest.stem->0) + dest.stem->0 + mark(n) + (seq![
            '.',
        ] + dest.extension->0),
{
    reveal_strlit(" (");
    reveal_strlit(").");
    let parent = dest.parent->0;
    let stem = dest.stem->0;
    let extension = dest.extension->0;
    let name = stem + mark(n) + (seq!['.'] + extension);
    if stem.len() > 0 {
        assert(name.first() == stem.first());
    } else if n == 1 {
        assert(name.first() == '.');
    } else {
        assert(name.first() == ' ');
    }
    if n == 1 {
        assert(stem + seq!['.'] + extension == name);
    } else {
        assert(numbered_name(dest, n) == name);
    }
    assert(crate::path::joined(parent, name) == lead(parent, stem) + name);
    assert(lead(parent, stem) + name == lead(parent, stem) + stem + mark(n) + (seq!['.']
        + extension));
}

proof fn marks_differ(m: nat, n: nat)
    requires
        1 <= m < n,
    ensures
        mark(m) != mark(n),
{
    if m == 1 {
        assert(mark(n).len() > 0);
    } else if mark(m) == mark(n) {
        equal_middles(
            seq![' ', '('],
            crate::text::decimal(m),
            crate::text::decimal(n),
            seq![')'],
        );
        crate::text::decimal_is_injective(m, n);
    }
}

/// Different attempts try different paths, at a destination that consists of its parts.
pub proof fn candidates_differ(dest: DestinationView, m: nat, n: nat)
    requires
        1 <= m < n,
        consists_of_its_parts(dest),
    ensures
        candidate(dest, m) != candidate(dest, n),
{
    candidate_is_marked(dest, m);
    candidate_is_marked(dest, n);
    marks_differ(m, n);
    if candidate(dest, m) == candidate(dest, n) {
        equal_middles(
            lead(dest.parent->0, dest.stem->0) + dest.stem->0,
            mark(m),
            mark(n),
            seq!['.'] + dest.extension->0,
        );
    }
}

/// A track that was captured before goes beside the earlier file, into the same directory, with
/// its number before the extension.
pub proof fn candidates_stand_side_by_side(r: TagRequestView, n: nat)
    requires
        2 <= n,
    ensures
        candidate(crate::layout::organized(r), 1) == crate::layout::organized_directory(r) + seq![
            '/',
        ] + crate::naming::sanitized(crate::layout::numbered_title(r)) + ".ogg"@,
        candidate(crate::layout::organized(r), n) == crate::layout::organized_directory(r) + seq![
            '/',
        ] + crate::naming::sanitized(crate::layout::numbered_title(r)) + " ("@
            + crate::text::decimal(n) + ").ogg"@,
{
    reveal_strlit(").");
    reveal_strlit("ogg");
    reveal_strlit(").ogg");
    reveal_strlit(".ogg");
    let dest = crate::layout::organized(r);
    crate::layout::organized_stem_and_extension(r);
    let stem = crate::naming::sanitized(crate::layout::numbered_title(r));
    let directory = crate::layout::organized_directory(r);
    let album = crate::naming::sanitized(crate::layout::filing_album(r));
    crate::naming::sanitized_is_tidy(crate::layout::numbered_title(r));
    crate::naming::sanitized_is_tidy(crate::layout::filing_album(r));
    assert(!crate::naming::is_illegal(stem[0]));
    assert(!crate::naming::is_illegal(album[0]));
    assert(!crate::naming::is_illegal(album[album.len() - 1]));
    assert(directory.last() == album.last());
    assert(numbered_name(dest, n).first() == stem.first());
    assert((stem + ".ogg"@).first() == stem.first());
    assert(stem + ".ogg"@ == stem + seq!['.'] + "ogg"@);
    assert(")."@ + "ogg"@ == ").ogg"@);
}

/// Different attempts try different paths for a track.
pub proof fn candidates_of_a_track_differ(r: TagRequestView, m: nat, n: nat)
    requires
        1 <= m < n,
    ensures
        candidate(crate::layout::organized(r), m) != candidate(crate::layout::organized(r), n),
{
    reveal_strlit(".ogg");
    reveal_strlit("ogg");
    crate::layout::organized_stem_and_extension(r);
    let stem = crate::naming::sanitized(crate::layout::numbered_title(r));
    assert(stem + ".ogg"@ == stem + seq!['.'] + "ogg"@);
    candidates_differ(crate::layout::organized(r), m, n);
}

/// Every candidate, spelled out: the destination itself first, and then, in the directory of the
/// destination (`.` where it has none), the stem (`capture` where it has none), the number in
/// brackets, and the extension (`ogg` where it has none).
pub proof fn candidates_are_numbered_before_the_extension(dest: DestinationView, n: nat)
    ensures
        candidate(dest, 1) == dest.path,
        ({
            let parent = match dest.parent {
                Some(text) => text,
                None => "."@,
            };
            let stem = match dest.stem {
                Some(text) => text,
                None => "capture"@,
            };
            let extension = match dest.extension {
                Some(text) => text,
                None => "ogg"@,
            };
            n >= 2 ==> candidate(dest, n) == crate::path::joined(
                parent,
                stem + " ("@ + crate::text::decimal(n) + ")."@ + extension,
            )
        }),
{
}

/// A candidate that does not exist is used. One that does is followed by the next, and no number
/// is left out, up to the greatest that a `u32` can hold.
pub proof fn searches_leave_out_no_number(dest: DestinationView, n: nat)
    requires
        1 <= n <= u32::MAX,
    ensures
        destination_step(dest, n, false) == (DestinationStepView::Use {
            path: candidate(dest, n),
        }),
        n < u32::MAX ==> destination_step(dest, n, true) == (DestinationStepView::Check {
            attempt: n + 1,
            path: candidate(dest, n + 1),
        }),
        n == u32::MAX ==> destination_step(dest, n, true) is NoneFree,
{
}

/// The view of a step tells its contents as they are.
pub proof fn step_views_are_exact(step: DestinationStep)
    ensures
        match step {
            DestinationStep::Check { attempt, path } => step@ == (DestinationStepView::Check {
                attempt: attempt as nat,
                path: path@,
            }),
            DestinationStep::Use { path } => step@ == (DestinationStepView::Use { path: path@ }),
            DestinationStep::NoneFree => step@ is NoneFree,
        },
{
}

} // verus!
