//! The parts of the standard library's text and path functions that the feedback inbox needs.
//!
//! What the file name of a path is depends on the platform. A path has a reading on Unix and a
//! reading on Windows; many paths are read alike on both.

use vstd::prelude::*;

verus! {

/// A character that separates the components of a path: `/`, and on Windows also `\`.
pub open spec fn is_separator(c: char, windows: bool) -> bool {
    c == '/' || (windows && c == '\\')
}

/// The path begins with a drive, as in `C:`.
pub open spec fn has_drive(path: Seq<char>) -> bool {
    &&& path.len() >= 2
    &&& ('a' <= path[0] <= 'z' || 'A' <= path[0] <= 'Z')
    &&& path[1] == ':'
}

/// Where the components of a path begin: on Windows after the drive.
pub open spec fn components_start(path: Seq<char>, windows: bool) -> int {
    if windows && has_drive(path) {
        2
    } else {
        0
    }
}

/// The path begins with two separators of Windows, as the names of servers, devices and verbatim
/// paths do there.
pub open spec fn is_doubled(path: Seq<char>) -> bool {
    path.len() >= 2 && is_separator(path[0], true) && is_separator(path[1], true)
}

/// An ordinary component: not empty, neither `.` nor `..`, and without a separator.
pub open spec fn is_component(name: Seq<char>, windows: bool) -> bool {
    &&& name.len() > 0
    &&& name != "."@
    &&& name != ".."@
    &&& forall|k: int| 0 <= k < name.len() ==> !is_separator(#[trigger] name[k], windows)
}

/// At `k` stands a separator, or the dot of a component that begins with one.
pub open spec fn is_idle_at(path: Seq<char>, k: int, windows: bool) -> bool {
    is_separator(path[k], windows) || (path[k] == '.' && is_separator(path[k - 1], windows))
}

/// From `end` on there are only separators, and `.` components, which name nothing.
pub open spec fn is_idle_from(path: Seq<char>, end: int, windows: bool) -> bool {
    forall|k: int| end <= k < path.len() ==> #[trigger] is_idle_at(path, k, windows)
}

/// `name` stands at `at` as the last component of `path`.
pub open spec fn is_last_at(path: Seq<char>, name: Seq<char>, at: int, windows: bool) -> bool {
    &&& components_start(path, windows) <= at
    &&& at + name.len() <= path.len()
    &&& path.subrange(at, at + name.len()) == name
    &&& is_component(name, windows)
    &&& at == components_start(path, windows) || is_separator(path[at - 1], windows)
    &&& is_idle_from(path, at + name.len(), windows)
}

/// `name` is the last component of `path`.
pub open spec fn is_last_name(path: Seq<char>, name: Seq<char>, windows: bool) -> bool {
    exists|at: int| is_last_at(path, name, at, windows)
}

/// `part` stands somewhere in `text`.
pub open spec fn occurs_in(part: Seq<char>, text: Seq<char>) -> bool {
    exists|i: int|
        0 <= i && i + part.len() <= text.len() && #[trigger] text.subrange(i, i + part.len())
            == part
}

/// `name` is the file name of `path`, as one platform reads it: the last component, if there is
/// one. Of a path that begins with two separators on Windows no more is said than that its file
/// name is a part of it.
pub open spec fn reads_as(path: Seq<char>, name: Option<Seq<char>>, windows: bool) -> bool {
    if windows && is_doubled(path) {
        name matches Some(name) ==> name.len() > 0 && occurs_in(name, path)
    } else {
        match name {
            Some(name) => is_last_name(path, name, windows),
            None => forall|name: Seq<char>| !is_last_name(path, name, windows),
        }
    }
}

/// On Unix and on Windows, `name` is the file name of `path`.
pub open spec fn has_final_name(path: Seq<char>, name: Seq<char>) -> bool {
    &&& !is_doubled(path)
    &&& is_last_name(path, name, false)
    &&& is_last_name(path, name, true)
}

/// Neither on Unix nor on Windows does `path` have a file name.
pub open spec fn has_no_final_name(path: Seq<char>) -> bool {
    &&& !is_doubled(path)
    &&& reads_as(path, None, false)
    &&& reads_as(path, None, true)
}

/// The text of an optional string slice.
pub open spec fn text_of(text: Option<&str>) -> Option<Seq<char>> {
    match text {
        Some(text) => Some(text@),
        None => None,
    }
}

/// `std::path::Path::file_name` of a path that is text: the last component, if that is a name.
///
/// Taken as true is that the result is what Unix reads, or what Windows reads. On both it is the
/// last component that is neither `.` nor `..`, with separators and `.` components after it left
/// out; a path that ends in `..`, or that has no component, has no file name. Windows knows a
/// second separator and a drive before the components. Which part of a path that begins with two
/// separators is its file name on Windows is left open, and so is which of the two platforms the
/// program runs on.
#[verifier::external_body]
fn path_file_name(path: &str) -> (name: Option<&str>)
    ensures
        reads_as(path@, text_of(name), false) || reads_as(path@, text_of(name), true),
{
    match std::path::Path::new(path).file_name() {
        Some(name) => name.to_str(),
        None => None,
    }
}

/// The standard library can give `name` as the file name of `path`, on the platform at hand.
pub closed spec fn file_name_given(path: &str, name: Option<&str>) -> bool {
    call_ensures(path_file_name, (path,), name)
}

/// What the standard library can give as the file name of `path` is what Unix or Windows reads.
pub proof fn law_given_name_is_read(path: &str, name: Option<&str>)
    requires
        file_name_given(path, name),
    ensures
        reads_as(path@, text_of(name), false) || reads_as(path@, text_of(name), true),
{
}

/// The file name of `path`, on the platform at hand.
pub(crate) fn file_name(path: &str) -> (name: Option<&str>)
    ensures
        file_name_given(path, name),
        reads_as(path@, text_of(name), false) || reads_as(path@, text_of(name), true),
{
    path_file_name(path)
}

/// `str::starts_with` with text as the pattern: whether `text` begins with `prefix`.
#[verifier::external_body]
pub(crate) fn starts_with(text: &str, prefix: &str) -> (yes: bool)
    ensures
        yes == prefix@.is_prefix_of(text@),
{
    text.starts_with(prefix)
}

/// `str::ends_with` with text as the pattern: whether `text` ends with `suffix`.
#[verifier::external_body]
pub(crate) fn ends_with(text: &str, suffix: &str) -> (yes: bool)
    ensures
        yes == suffix@.is_suffix_of(text@),
{
    text.ends_with(suffix)
}

/// A path has one last component at most.
pub proof fn law_last_name_is_unique(
    path: Seq<char>,
    first: Seq<char>,
    second: Seq<char>,
    windows: bool,
)
    requires
        is_last_name(path, first, windows),
        is_last_name(path, second, windows),
    ensures
        first == second,
{
    let i = choose|at: int| is_last_at(path, first, at, windows);
    let j = choose|at: int| is_last_at(path, second, at, windows);
    lemma_last_ends(path, first, i, second, j, windows);
    lemma_last_ends(path, second, j, first, i, windows);
    lemma_last_begins(path, first, i, second, j, windows);
    lemma_last_begins(path, second, j, first, i, windows);
}

proof fn lemma_last_ends(
    path: Seq<char>,
    first: Seq<char>,
    i: int,
    second: Seq<char>,
    j: int,
    windows: bool,
)
    requires
        is_last_at(path, first, i, windows),
        is_last_at(path, second, j, windows),
    ensures
        i + first.len() >= j + second.len(),
{
    reveal_strlit(".");
    let e = j + second.len();
    if i + first.len() < e {
        assert(second[second.len() - 1] == path[e - 1]);
        assert(!is_separator(second[second.len() - 1], windows));
        assert(is_idle_at(path, e - 1, windows));
        assert(path[e - 1] == '.' && is_separator(path[e - 2], windows));
        if second.len() == 1 {
            assert(second =~= "."@);
        } else {
            assert(second[second.len() - 2] == path[e - 2]);
        }
    }
}

proof fn lemma_last_begins(
    path: Seq<char>,
    first: Seq<char>,
    i: int,
    second: Seq<char>,
    j: int,
    windows: bool,
)
    requires
        is_last_at(path, first, i, windows),
        is_last_at(path, second, j, windows),
        i + first.len() == j + second.len(),
    ensures
        i >= j,
{
    if i < j {
        assert(first[j - 1 - i] == path[j - 1]);
    }
}

/// A file in a directory is read under its own name, on either platform, whatever the directory
/// is. So is the bare name of a file, unless it looks like a drive. Separators and `.` components
/// after the name do not matter. Only of a path that begins with two separators it is left open,
/// on Windows, which name is read.
pub proof fn law_file_in_directory_is_read(
    directory: Seq<char>,
    name: Seq<char>,
    tail: Seq<char>,
    windows: bool,
)
    requires
        is_component(name, windows),
        directory.len() > 0 ==> is_separator(directory.last(), windows),
        directory.len() == 0 && windows ==> !has_drive(name),
        tail.len() > 0 ==> is_separator(tail[0], windows),
        is_idle_from(tail, 1, windows),
    ensures
        is_last_name(directory + name + tail, name, windows),
        !(windows && is_doubled(directory + name + tail)) ==> forall|read: Option<Seq<char>>|
            #[trigger] reads_as(directory + name + tail, read, windows) <==> read == Some(name),
{
    let path = directory + name + tail;
    let at = directory.len() as int;
    assert(path.subrange(at, at + name.len()) =~= name);
    if at > 0 {
        assert(path[at - 1] == directory.last());
    }
    assert(components_start(path, windows) <= at) by {
        if windows && has_drive(path) && at < 2 {
            if at == 1 {
                assert(path[0] == directory.last());
            } else {
                assert(path[0] == name[0]);
                if name.len() >= 2 {
                    assert(path[1] == name[1]);
                } else {
                    assert(path[1] == tail[0]);
                }
            }
        }
    }
    assert forall|k: int| at + name.len() <= k < path.len() implies #[trigger] is_idle_at(
        path,
        k,
        windows,
    ) by {
        let m = k - at - name.len();
        assert(path[k] == tail[m]);
        if m > 0 {
            assert(path[k - 1] == tail[m - 1]);
            assert(is_idle_at(tail, m, windows));
        }
    }
    assert(is_last_at(path, name, at, windows));
    assert(is_last_name(path, name, windows));
    if !(windows && is_doubled(path)) {
        assert forall|read: Option<Seq<char>>| #[trigger]
            reads_as(path, read, windows) <==> read == Some(name) by {
            if reads_as(path, read, windows) && read is Some {
                law_last_name_is_unique(path, read->0, name, windows);
            }
        }
    }
}

/// A file in a directory has its own name as file name on Unix and on Windows alike, where the
/// directory ends in `/`, unless the path begins with two separators.
pub proof fn law_file_in_directory_has_its_name(
    directory: Seq<char>,
    name: Seq<char>,
    tail: Seq<char>,
)
    requires
        is_component(name, true),
        directory.len() > 0 ==> directory.last() == '/',
        directory.len() == 0 ==> !has_drive(name),
        !is_doubled(directory + name + tail),
        tail.len() > 0 ==> tail[0] == '/',
        is_idle_from(tail, 1, false),
    ensures
        has_final_name(directory + name + tail, name),
{
    assert forall|k: int| 1 <= k < tail.len() implies #[trigger] is_idle_at(tail, k, true) by {
        assert(is_idle_at(tail, k, false));
    }
    assert forall|k: int| 0 <= k < name.len() implies !is_separator(#[trigger] name[k], false) by {
        assert(!is_separator(name[k], true));
    }
    law_file_in_directory_is_read(directory, name, tail, false);
    law_file_in_directory_is_read(directory, name, tail, true);
}

/// A path that ends in `..` has no file name, on Unix or on Windows, unless it begins with two
/// separators. Separators and `.` components after the `..` do not matter.
pub proof fn law_parent_has_no_file_name(directory: Seq<char>, tail: Seq<char>)
    requires
        directory.len() > 0 ==> directory.last() == '/',
        !is_doubled(directory + ".."@ + tail),
        tail.len() > 0 ==> tail[0] == '/',
        is_idle_from(tail, 1, false),
    ensures
        has_no_final_name(directory + ".."@ + tail),
{
    reveal_strlit("..");
    reveal_strlit(".");
    let path = directory + ".."@ + tail;
    let at = directory.len() as int;
    assert(path[at] == '.' && path[at + 1] == '.');
    assert forall|name: Seq<char>, windows: bool| !is_last_name(path, name, windows) by {
        if is_last_name(path, name, windows) {
            let i = choose|i: int| is_last_at(path, name, i, windows);
            let e = i + name.len();
            if e > at + 2 {
                // The name would end in the tail.
                let m = e - 1 - at - 2;
                assert(path[e - 1] == tail[m]);
                assert(name[name.len() - 1] == path[e - 1]);
                assert(!is_separator(name[name.len() - 1], windows));
                if m > 0 {
                    assert(path[e - 2] == tail[m - 1]);
                    assert(is_idle_at(tail, m, false));
                    assert(tail[m] == '.' && tail[m - 1] == '/');
                    if name.len() == 1 {
                        assert(name =~= "."@);
                    } else {
                        assert(name[name.len() - 2] == path[e - 2]);
                    }
                }
            } else if e < at + 2 {
                // The second dot would have to follow a separator.
                assert(is_idle_at(path, at + 1, windows));
            } else {
                if i < at {
                    assert(name[at - 1 - i] == path[at - 1]);
                    assert(path[at - 1] == directory.last());
                } else if i == at {
                    assert(name =~= ".."@);
                } else {
                    assert(i == at + 1);
                    assert(name =~= "."@);
                }
            }
        }
    }
    assert(forall|name: Seq<char>| !is_last_name(path, name, false));
    assert(forall|name: Seq<char>| !is_last_name(path, name, true));
}

} // verus!
