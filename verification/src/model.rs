//! The names of files: the one under which a model is shown, and their extensions.
use crate::text::{occurs, optional_text};
use vstd::prelude::*;

verus! {

/// Whether `c` separates the components of a path on some platform.
pub open spec fn separates(c: char) -> bool {
    c == '/' || c == '\\'
}

/// Whether `path` begins as the name of a network share or a device does.
pub open spec fn begins_as_share(path: Seq<char>) -> bool {
    path.len() >= 2 && separates(path[0]) && separates(path[1])
}

/// `path` with its backslashes read as slashes.
pub open spec fn slashed(path: Seq<char>) -> Seq<char> {
    path.map_values(
        |c: char|
            if c == '\\' {
                '/'
            } else {
                c
            },
    )
}

/// What follows the last `mark` in `s`; all of it where there is none.
pub open spec fn after_last(s: Seq<char>, mark: char) -> Seq<char>
    decreases s.len(),
{
    if s.len() == 0 || s.last() == mark {
        seq![]
    } else {
        after_last(s.drop_last(), mark).push(s.last())
    }
}

/// The final component of `path`, slashes and single dots at its end left out; a path that ends in
/// two dots has none.
pub open spec fn final_component(path: Seq<char>) -> Option<Seq<char>>
    decreases path.len(),
{
    if path.len() == 0 {
        None
    } else if path.last() == '/' || after_last(path, '/') == seq!['.'] {
        final_component(path.drop_last())
    } else if after_last(path, '/') == seq!['.', '.'] {
        None
    } else {
        Some(after_last(path, '/'))
    }
}

/// Whether `s` begins as a path with a drive does.
pub open spec fn begins_as_drive(s: Seq<char>) -> bool {
    s.len() >= 2 && ('a' <= s[0] <= 'z' || 'A' <= s[0] <= 'Z') && s[1] == ':'
}

/// Whether a part of `name` may be the drive of `path`: both begin with one.
pub open spec fn may_hold_drive(name: Seq<char>, path: Seq<char>) -> bool {
    begins_as_drive(path) && begins_as_drive(name)
}

/// Whether Unix and Windows find the same name in `path`: it names no share, and its final
/// component holds neither a backslash nor a drive.
pub open spec fn portable(path: Seq<char>) -> bool {
    &&& !begins_as_share(path)
    &&& final_component(path) matches Some(n) ==> !n.contains('\\') && !may_hold_drive(n, path)
}

/// Whether Unix and Windows differ over `path` only in whether a backslash separates: it names no
/// share, and no name in it follows a drive without a separator.
pub open spec fn native(path: Seq<char>) -> bool {
    &&& !begins_as_share(path)
    &&& final_component(slashed(path)) matches Some(n) ==> !may_hold_drive(n, path)
}

/// What holds of the file name of `path` on Unix and on Windows: it is a part of the path that is
/// not empty; it is the final component of a portable path; and of a native path it is the final
/// component, a backslash being read as a separator or not.
pub open spec fn fits_path(name: Option<Seq<char>>, path: Seq<char>) -> bool {
    &&& (match name {
        Some(n) => n.len() > 0 && occurs(n, path),
        None => true,
    })
    &&& portable(path) ==> name == final_component(path)
    &&& native(path) ==> name == final_component(path) || name == final_component(slashed(path))
}

/// `std::path::Path::file_name` gives the final component of a path, if there is one. Whether a
/// backslash separates components depends on the platform, and so does what names a drive or a
/// share: of a path that begins with two separators, or with a drive that its name may hold, only
/// that the file name is a part of the path is stated.
#[verifier::external_body]
pub(crate) fn file_name(path: &str) -> (name: Option<String>)
    ensures
        fits_path(optional_text(name), path@),
{
    match std::path::Path::new(path).file_name() {
        Some(name) => Some(name.to_string_lossy().into_owned()),
        None => None,
    }
}

/// The extension of a file name: what follows its last dot, unless there is none or the name begins
/// with it.
pub open spec fn extension_in(name: Option<Seq<char>>) -> Option<Seq<char>> {
    match name {
        Some(n) => if n.contains('.') && after_last(n, '.').len() + 1 < n.len() {
            Some(after_last(n, '.'))
        } else {
            None
        },
        None => None,
    }
}

/// What holds of the extension of `path` on Unix and on Windows: it is that of a file name that
/// fits.
pub open spec fn extension_fits(found: Option<Seq<char>>, path: Seq<char>) -> bool {
    exists|name: Option<Seq<char>>| #[trigger] fits_path(name, path) && found == extension_in(name)
}

/// `std::path::Path::extension` gives the extension of a path's file name. Which name that is
/// depends on the platform as it does in `file_name`.
#[verifier::external_body]
pub(crate) fn extension(path: &str) -> (found: Option<String>)
    ensures
        extension_fits(optional_text(found), path@),
{
    match std::path::Path::new(path).extension() {
        Some(found) => Some(found.to_string_lossy().into_owned()),
        None => None,
    }
}

/// What follows the last mark is the whole of a text without marks, whatever stands before the
/// mark in front of it.
proof fn after_last_of_an_unmarked_text(before: Seq<char>, name: Seq<char>, mark: char)
    requires
        before.len() == 0 || before.last() == mark,
        !name.contains(mark),
    ensures
        after_last(before + name, mark) == name,
    decreases name.len(),
{
    let path = before + name;
    if name.len() == 0 {
        assert(path =~= before);
    } else {
        assert(name.contains(name.last()));
        assert(path.drop_last() =~= before + name.drop_last());
        assert forall|i: int| 0 <= i < name.drop_last().len() implies name.drop_last()[i]
            != mark by {
            assert(name.contains(name[i]));
        }
        after_last_of_an_unmarked_text(before, name.drop_last(), mark);
        assert(name.drop_last().push(name.last()) =~= name);
    }
}

/// Whether `name` is one component of a path, on Unix and on Windows.
pub open spec fn plain_name(name: Seq<char>) -> bool {
    &&& name.len() > 0
    &&& !name.contains('/')
    &&& !name.contains('\\')
    &&& name != seq!['.']
    &&& name != seq!['.', '.']
}

/// The final component of a path is the name that stands at its end.
proof fn final_component_of_a_name(directory: Seq<char>, name: Seq<char>)
    requires
        directory.len() == 0 || directory.last() == '/',
        plain_name(name),
    ensures
        final_component(directory + name) == Some(name),
{
    after_last_of_an_unmarked_text(directory, name, '/');
    assert((directory + name).last() == name.last());
    assert(name.contains(name.last()));
}

/// A file is called by its own name, in whatever directory it is.
pub proof fn file_is_called_by_its_name(
    directory: Seq<char>,
    name: Seq<char>,
    found: Option<Seq<char>>,
)
    requires
        directory.len() == 0 || directory.last() == '/',
        plain_name(name),
        !begins_as_share(directory + name),
        !may_hold_drive(name, directory + name),
        fits_path(found, directory + name),
    ensures
        found == Some(name),
{
    final_component_of_a_name(directory, name);
}

/// A file in a directory that is written with backslashes is called by its own name, or else, where
/// a backslash does not separate, by all that follows the last slash.
pub proof fn file_of_a_native_path_is_called_by_its_name(
    directory: Seq<char>,
    name: Seq<char>,
    found: Option<Seq<char>>,
)
    requires
        directory.len() > 0 && directory.last() == '\\',
        plain_name(name),
        !begins_as_share(directory + name),
        !may_hold_drive(name, directory + name),
        fits_path(found, directory + name),
    ensures
        found == Some(name) || found == final_component(directory + name),
{
    assert(slashed(name) =~= name) by {
        assert forall|i: int| 0 <= i < name.len() implies slashed(name)[i] == name[i] by {
            assert(name.contains(name[i]));
        }
    }
    assert(slashed(directory + name) =~= slashed(directory) + name);
    final_component_of_a_name(slashed(directory), name);
}

/// A slash at the end of a path, with a single dot behind it or without, changes nothing for its
/// name; two dots behind a slash leave none.
pub proof fn slashes_and_dots_at_the_end(path: Seq<char>)
    requires
        path.len() > 0,
    ensures
        final_component(path + seq!['/']) == final_component(path),
        final_component(path + seq!['/', '.']) == final_component(path),
        final_component(path + seq!['/', '.', '.']) is None,
        final_component(seq![]) is None,
        final_component(seq!['.', '.']) is None,
        final_component(seq!['.']) is None,
{
    let slash = path + seq!['/'];
    assert(slash.drop_last() =~= path);
    assert(final_component(slash) == final_component(path));
    let dot = path + seq!['/', '.'];
    assert(dot =~= slash + seq!['.']);
    after_last_of_an_unmarked_text(slash, seq!['.'], '/');
    assert(dot.drop_last() =~= slash);
    assert(dot.last() == '.');
    let dots = path + seq!['/', '.', '.'];
    assert(dots =~= slash + seq!['.', '.']);
    after_last_of_an_unmarked_text(slash, seq!['.', '.'], '/');
    assert(dots.last() == '.');
    assert(after_last(dots, '/')[1] == '.');
    assert(seq!['.'].len() == 1);
    let none = Seq::<char>::empty();
    after_last_of_an_unmarked_text(none, seq!['.', '.'], '/');
    after_last_of_an_unmarked_text(none, seq!['.'], '/');
    assert(none + seq!['.', '.'] =~= seq!['.', '.']);
    assert(none + seq!['.'] =~= seq!['.']);
    assert(seq!['.'].drop_last() =~= none);
    assert(final_component(seq!['.']) == final_component(none));
    assert(seq!['.', '.'].last() == '.');
}

/// What follows the last dot of a name is its extension, unless that dot begins the name; a name
/// without a dot has none, and so has a path without a name.
pub proof fn extension_follows_the_last_dot(stem: Seq<char>, extension: Seq<char>)
    requires
        !extension.contains('.'),
    ensures
        stem.len() > 0 ==> extension_in(Some(stem + seq!['.'] + extension)) == Some(extension),
        extension_in(Some(seq!['.'] + extension)) is None,
        extension_in(Some(extension)) is None,
        extension_in(None) is None,
{
    let name = stem + seq!['.'] + extension;
    assert(name =~= (stem + seq!['.']) + extension);
    assert((stem + seq!['.']).last() == '.');
    after_last_of_an_unmarked_text(stem + seq!['.'], extension, '.');
    assert(name[stem.len() as int] == '.');
    assert(name.contains('.'));
    let hidden = seq!['.'] + extension;
    after_last_of_an_unmarked_text(seq!['.'], extension, '.');
}

/// A file is called by what follows the last slash of its path: whatever stands before it, unless
/// the path begins with two separators, or both the path and the name with a letter and a colon. A
/// path that is empty has no name.
pub proof fn name_follows_the_last_slash(
    directory: Seq<char>,
    name: Seq<char>,
    found: Option<Seq<char>>,
    of_nothing: Option<Seq<char>>,
)
    requires
        directory.len() == 0 || directory.last() == '/',
        name.len() > 0,
        forall|i: int| 0 <= i < name.len() ==> (#[trigger] name[i]) != '/' && name[i] != '\\',
        name != seq!['.'],
        name != seq!['.', '.'],
        (directory + name).len() < 2 || ((directory + name)[0] != '/' && (directory + name)[0]
            != '\\') || ((directory + name)[1] != '/' && (directory + name)[1] != '\\'),
        (directory + name).len() < 2 || (directory + name)[1] != ':' || name.len() < 2 || name[1]
            != ':' || !('a' <= name[0] <= 'z' || 'A' <= name[0] <= 'Z') || !('a' <= (directory
            + name)[0] <= 'z' || 'A' <= (directory + name)[0] <= 'Z'),
        fits_path(found, directory + name),
        fits_path(of_nothing, seq![]),
    ensures
        found == Some(name),
        of_nothing is None,
{
    file_is_called_by_its_name(directory, name, found);
}

/// The extension of a file is what follows the last dot of its name, unless that dot begins the
/// name, whatever stands before the name.
pub proof fn extension_of_a_file_follows_the_last_dot(
    directory: Seq<char>,
    stem: Seq<char>,
    extension: Seq<char>,
    name: Seq<char>,
    found: Option<Seq<char>>,
)
    requires
        name == stem + seq!['.'] + extension,
        directory.len() == 0 || directory.last() == '/',
        forall|i: int| 0 <= i < name.len() ==> (#[trigger] name[i]) != '/' && name[i] != '\\',
        forall|i: int| 0 <= i < extension.len() ==> (#[trigger] extension[i]) != '.',
        name != seq!['.'],
        name != seq!['.', '.'],
        (directory + name).len() < 2 || ((directory + name)[0] != '/' && (directory + name)[0]
            != '\\') || ((directory + name)[1] != '/' && (directory + name)[1] != '\\'),
        (directory + name).len() < 2 || (directory + name)[1] != ':' || name.len() < 2 || name[1]
            != ':' || !('a' <= name[0] <= 'z' || 'A' <= name[0] <= 'Z') || !('a' <= (directory
            + name)[0] <= 'z' || 'A' <= (directory + name)[0] <= 'Z'),
        extension_fits(found, directory + name),
    ensures
        stem.len() > 0 ==> found == Some(extension),
        stem.len() == 0 ==> found is None,
{
    let called = choose|called: Option<Seq<char>>|
        #[trigger] fits_path(called, directory + name) && found == extension_in(called);
    nothing_has_no_name();
    name_follows_the_last_slash(directory, name, called, None);
    extension_follows_the_last_dot(stem, extension);
    assert(stem.len() == 0 ==> name =~= seq!['.'] + extension);
}

/// A file whose name has no dot has no extension, whatever stands before the name.
pub proof fn name_without_a_dot_has_no_extension(
    directory: Seq<char>,
    name: Seq<char>,
    found: Option<Seq<char>>,
)
    requires
        directory.len() == 0 || directory.last() == '/',
        name.len() > 0,
        forall|i: int|
            0 <= i < name.len() ==> (#[trigger] name[i]) != '/' && name[i] != '\\' && name[i]
                != '.',
        (directory + name).len() < 2 || ((directory + name)[0] != '/' && (directory + name)[0]
            != '\\') || ((directory + name)[1] != '/' && (directory + name)[1] != '\\'),
        (directory + name).len() < 2 || (directory + name)[1] != ':' || name.len() < 2 || name[1]
            != ':' || !('a' <= name[0] <= 'z' || 'A' <= name[0] <= 'Z') || !('a' <= (directory
            + name)[0] <= 'z' || 'A' <= (directory + name)[0] <= 'Z'),
        extension_fits(found, directory + name),
    ensures
        found is None,
{
    let called = choose|called: Option<Seq<char>>|
        #[trigger] fits_path(called, directory + name) && found == extension_in(called);
    nothing_has_no_name();
    assert(seq!['.'][0] == '.' && seq!['.', '.'][0] == '.');
    name_follows_the_last_slash(directory, name, called, None);
    extension_follows_the_last_dot(seq![], name);
}

/// An empty path has no name.
proof fn nothing_has_no_name()
    ensures
        fits_path(None, seq![]),
{
    assert(slashed(seq![]) =~= seq![]);
}

/// A path begins as a share exactly where it begins with two separators, slashes or backslashes,
/// and with a drive exactly where it begins with a letter and a colon. Reading backslashes as
/// slashes changes them and nothing else.
pub proof fn shares_drives_and_backslashes(path: Seq<char>, i: int)
    requires
        0 <= i < path.len(),
    ensures
        begins_as_share(path) <==> path.len() >= 2 && (path[0] == '/' || path[0] == '\\') && (path[1]
            == '/' || path[1] == '\\'),
        begins_as_drive(path) <==> path.len() >= 2 && path[1] == ':' && (('a' <= path[0] && path[0]
            <= 'z') || ('A' <= path[0] && path[0] <= 'Z')),
        slashed(path).len() == path.len(),
        slashed(path)[i] == if path[i] == '\\' {
            '/'
        } else {
            path[i]
        },
{
}

} // verus!
