//! Paths as text, with `/` between their components on every platform. No component of an
//! organized path holds a `/`, so a caller can take the path apart and put it together again with
//! the separator of its platform.

use vstd::prelude::*;

use crate::text::{char_vec, string_of};

verus! {

/// `part` below `base`: `part` alone where it is absolute, and otherwise behind `base`, with a
/// separator in between where `base` is not empty and does not end in one.
pub open spec fn joined(base: Seq<char>, part: Seq<char>) -> Seq<char> {
    if part.len() > 0 && part.first() == '/' {
        part
    } else if base.len() == 0 || base.last() == '/' {
        base + part
    } else {
        base + seq!['/'] + part
    }
}

/// Adjoins `part` to `base`, as `std::path::Path::join` does on Unix. A `part` that is absolute
/// replaces `base`.
pub fn join(base: &str, part: &str) -> (path: String)
    ensures
        path@ == joined(base@, part@),
{
    let head = char_vec(base);
    let tail = char_vec(part);
    if tail.len() > 0 && tail[0] == '/' {
        return part.to_owned();
    }
    let mut path = base.to_owned();
    if head.len() > 0 && head[head.len() - 1] != '/' {
        path.push('/');
        assert(path@ == base@ + seq!['/']);
    }
    path.append(part);
    path
}

/// The position of the final dot of `name`.
pub open spec fn final_dot(name: Seq<char>) -> Option<int>
    decreases name.len(),
{
    if name.len() == 0 {
        None
    } else if name.last() == '.' {
        Some(name.len() - 1)
    } else {
        final_dot(name.drop_last())
    }
}

/// The part of a file name before its final dot; all of it where it has no dot, or none but the
/// first character.
pub open spec fn file_stem(name: Seq<char>) -> Seq<char> {
    match final_dot(name) {
        Some(i) => if i > 0 {
            name.take(i)
        } else {
            name
        },
        None => name,
    }
}

/// The part of a file name behind its final dot, where that is not the first character.
pub open spec fn extension(name: Seq<char>) -> Option<Seq<char>> {
    match final_dot(name) {
        Some(i) => if i > 0 {
            Some(name.skip(i + 1))
        } else {
            None
        },
        None => None,
    }
}

/// A path to a file, with its directory and the two parts of its file name, where it has them.
#[derive(Clone, Debug)]
pub struct Destination {
    /// The whole path.
    pub path: String,
    /// The directory that the file stands in.
    pub parent: Option<String>,
    /// The file name without its extension.
    pub stem: Option<String>,
    /// The extension of the file name, without the dot.
    pub extension: Option<String>,
}

/// The texts of a [`Destination`].
#[verifier::ext_equal]
pub struct DestinationView {
    pub path: Seq<char>,
    pub parent: Option<Seq<char>>,
    pub stem: Option<Seq<char>>,
    pub extension: Option<Seq<char>>,
}

impl View for Destination {
    type V = DestinationView;

    open spec fn view(&self) -> DestinationView {
        DestinationView {
            path: self.path@,
            parent: crate::text::optional_text(self.parent),
            stem: crate::text::optional_text(self.stem),
            extension: crate::text::optional_text(self.extension),
        }
    }
}

/// The file `name` in the directory `parent`.
pub open spec fn file_in(parent: Seq<char>, name: Seq<char>) -> DestinationView {
    DestinationView {
        path: joined(parent, name),
        parent: Some(parent),
        stem: Some(file_stem(name)),
        extension: extension(name),
    }
}

/// A name for a file in a directory: one path component, not empty, `.` or `..`.
pub open spec fn is_file_name(name: Seq<char>) -> bool {
    &&& name.len() > 0
    &&& !name.contains('/')
    &&& name != seq!['.']
    &&& name != seq!['.', '.']
}

impl Destination {
    /// The file `name` in the directory `parent`.
    pub fn in_directory(parent: &str, name: &str) -> (dest: Destination)
        requires
            is_file_name(name@),
        ensures
            dest@ == file_in(parent@, name@),
    {
        let chars = char_vec(name);
        let n = chars.len();
        assert(name@.take(n as int) == name@);
        let mut i: usize = n;
        while i > 0 && chars[i - 1] != '.'
            invariant
                i <= n == chars.len(),
                chars@ == name@,
                final_dot(name@.take(i as int)) == final_dot(name@),
            decreases i,
        {
            assert(name@.take(i as int).drop_last() == name@.take(i - 1));
            i = i - 1;
        }
        let path = join(parent, name);
        let parent = Some(parent.to_owned());
        if i > 1 {
            assert(final_dot(name@) == Some(i - 1));
            let stem = string_of(&chars, 0, i - 1);
            let extension = string_of(&chars, i, n);
            assert(stem@ == name@.take(i - 1));
            assert(extension@ == name@.skip(i as int));
            Destination { path, parent, stem: Some(stem), extension: Some(extension) }
        } else {
            Destination { path, parent, stem: Some(name.to_owned()), extension: None }
        }
    }
}

/// A relative part stands in full at the end of the joined path, and the base in full at its
/// beginning, with one `/` between them where the base is not empty and does not end in one, and
/// nothing otherwise.
pub proof fn joining_keeps_base_and_part(base: Seq<char>, part: Seq<char>)
    requires
        part.len() == 0 || part[0] != '/',
    ensures
        base.is_prefix_of(joined(base, part)),
        part.is_suffix_of(joined(base, part)),
        base.len() == 0 || base[base.len() - 1] == '/' ==> joined(base, part).len() == base.len()
            + part.len(),
        base.len() > 0 && base[base.len() - 1] != '/' ==> {
            &&& joined(base, part).len() == base.len() + 1 + part.len()
            &&& joined(base, part)[base.len() as int] == '/'
        },
{
    let path = joined(base, part);
    assert(path.subrange(0, base.len() as int) == base);
    assert(path.subrange(path.len() - part.len(), path.len() as int) == part);
}

/// An absolute part replaces the base.
pub proof fn joining_an_absolute_part(base: Seq<char>, part: Seq<char>)
    requires
        part.len() > 0,
        part[0] == '/',
    ensures
        joined(base, part) == part,
{
}

proof fn final_dot_is_final(name: Seq<char>)
    ensures
        final_dot(name) matches Some(i) ==> 0 <= i < name.len() && name[i] == '.',
        final_dot(name) matches Some(i) ==> forall|j: int| i < j < name.len() ==> name[j] != '.',
        final_dot(name) is None ==> forall|j: int| 0 <= j < name.len() ==> name[j] != '.',
    decreases name.len(),
{
    if name.len() > 0 && name.last() != '.' {
        let init = name.drop_last();
        final_dot_is_final(init);
        assert(forall|j: int| 0 <= j < init.len() ==> init[j] == name[j]);
    }
}

/// A file in a directory has the joined path, that directory as its parent, and its name in two
/// parts: stem, dot and extension make up the name, the stem is not empty, and the extension holds
/// no dot. A name without a dot behind its first character is a stem alone.
pub proof fn parts_make_up_the_name(parent: Seq<char>, name: Seq<char>)
    ensures
        file_in(parent, name).path == joined(parent, name),
        file_in(parent, name).parent == Some(parent),
        file_in(parent, name).stem is Some,
        file_in(parent, name).extension matches Some(extension) ==> {
            &&& file_in(parent, name).stem->0.len() > 0
            &&& file_in(parent, name).stem->0 + "."@ + extension == name
            &&& !extension.contains('.')
        },
        file_in(parent, name).extension is None ==> {
            &&& file_in(parent, name).stem->0 == name
            &&& forall|i: int| 1 <= i < name.len() ==> name[i] != '.'
        },
{
    reveal_strlit(".");
    final_dot_is_final(name);
    if let Some(i) = final_dot(name) {
        if i > 0 {
            assert(name.take(i) + "."@ + name.skip(i + 1) == name);
        }
    }
}

/// Exactly these are no file names: the empty text, a text with a `/`, `.` and `..`.
pub proof fn file_names_are_all_but_these(name: Seq<char>)
    ensures
        !is_file_name(name) <==> {
            ||| name == ""@
            ||| exists|i: int| 0 <= i < name.len() && name[i] == '/'
            ||| name == "."@
            ||| name == ".."@
        },
{
    reveal_strlit("");
    reveal_strlit(".");
    reveal_strlit("..");
    assert("."@ == seq!['.']);
    assert(".."@ == seq!['.', '.']);
    if name.len() == 0 {
        assert(name == ""@);
    }
}

/// The view of a destination tells its texts as they are.
pub proof fn destination_views_are_exact(dest: Destination)
    ensures
        dest@.path == dest.path@,
        match dest.parent {
            Some(text) => dest@.parent == Some(text@),
            None => dest@.parent is None,
        },
        match dest.stem {
            Some(text) => dest@.stem == Some(text@),
            None => dest@.stem is None,
        },
        match dest.extension {
            Some(text) => dest@.extension == Some(text@),
            None => dest@.extension is None,
        },
{
}

} // verus!
