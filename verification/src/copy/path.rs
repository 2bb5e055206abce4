//! Paths of the host's file system, which the library carries but does not look into.

use std::path::{Path, PathBuf};

use vstd::prelude::*;
use vstd::utf8::{decode_utf8, valid_utf8};

verus! {

/// Declares the standard library's `PathBuf`.
#[verifier::external_type_specification]
#[verifier::external_body]
pub struct ExPathBuf(std::path::PathBuf);

/// Declares the standard library's `Path`.
#[verifier::external_type_specification]
#[verifier::external_body]
pub struct ExPath(std::path::Path);

/// The bytes of an owned path.
pub uninterp spec fn path_buf_bytes(path: PathBuf) -> Seq<u8>;

/// The bytes of a borrowed path.
pub uninterp spec fn path_bytes(path: &Path) -> Seq<u8>;

/// Standard library's `PathBuf::as_path`: a borrowed view of the same path.
pub assume_specification[ PathBuf::as_path ](path: &PathBuf) -> (res: &Path)
    ensures
        path_bytes(res) == path_buf_bytes(*path),
;

/// Standard library's `Path::to_path_buf`: an owned copy of the same path.
pub assume_specification[ Path::to_path_buf ](path: &Path) -> (res: PathBuf)
    ensures
        path_buf_bytes(res) == path_bytes(path),
;

/// Standard library's `PathBuf::clone`: a copy of the same path.
pub assume_specification[ <PathBuf as Clone>::clone ](path: &PathBuf) -> (res: PathBuf)
    ensures
        path_buf_bytes(res) == path_buf_bytes(*path),
;

/// Whether `b` may stand in a plain file name: it is none of NUL, `/`, `:` and `\`, without which
/// no platform divides a path or marks its root.
pub open spec fn is_plain_byte(b: u8) -> bool {
    b != 0 && b != 47 && b != 58 && b != 92
}

/// Whether `name` is a file name that every platform takes for one component of a path.
pub open spec fn is_plain_name(name: Seq<u8>) -> bool {
    &&& name.len() > 0
    &&& name != seq![46u8]
    &&& name != seq![46u8, 46u8]
    &&& forall|i: int| 0 <= i < name.len() ==> is_plain_byte(#[trigger] name[i])
}

/// The path of `name` inside `dir`.
pub open spec fn child_path(dir: Seq<u8>, name: Seq<u8>) -> Seq<u8> {
    dir + seq![47u8] + name
}

/// Whether `dir` is made of file names and single slashes between them, and perhaps one in front.
pub open spec fn is_plain_dir(dir: Seq<u8>) -> bool
    decreases dir.len(),
{
    is_plain_name(dir) || exists|above: Seq<u8>, name: Seq<u8>|
        above.len() < dir.len() && (above.len() == 0 || is_plain_dir(above)) && is_plain_name(name)
            && dir == #[trigger] child_path(above, name)
}

/// Whether there is a path, and `bytes` are its bytes.
pub open spec fn is_path(path: Option<PathBuf>, bytes: Seq<u8>) -> bool {
    path is Some && path_buf_bytes(path->0) == bytes
}

/// Standard library's `Path::parent`: the path without its final component, which is a leading
/// part of it, and none for the empty path and the root. Of a file name alone it is the empty path,
/// of a file in a directory the directory. Which other characters divide components depends on
/// the platform, so how much is left of a path with such characters is not said.
#[verifier::external_body]
fn parent_of(path: &PathBuf) -> (res: Option<PathBuf>)
    ensures
        path_buf_bytes(*path).len() == 0 ==> res is None,
        res matches Some(parent) ==> path_buf_bytes(parent).is_prefix_of(path_buf_bytes(*path)),
        path_buf_bytes(*path) == seq![47u8] ==> res is None,
        is_plain_name(path_buf_bytes(*path)) ==> is_path(res, Seq::empty()),
        forall|name: Seq<u8>|
            is_plain_name(name) && path_buf_bytes(*path) == #[trigger] child_path(
                Seq::empty(),
                name,
            ) ==> is_path(res, seq![47u8]),
        forall|dir: Seq<u8>, name: Seq<u8>|
            is_plain_dir(dir) && is_plain_name(name) && path_buf_bytes(*path)
                == #[trigger] child_path(dir, name) ==> is_path(res, dir),
{
    path.parent().map(|parent| parent.to_path_buf())
}

/// Standard library's `OsStr::is_empty`, of the text of a path: whether the path is empty.
#[verifier::external_body]
fn is_empty_path(path: &PathBuf) -> (res: bool)
    ensures
        res == (path_buf_bytes(*path).len() == 0),
{
    path.as_os_str().is_empty()
}

/// Whether `text` shows a path with these bytes: it is the text that they encode where they are
/// valid UTF-8.
pub open spec fn shows_path(text: Seq<char>, bytes: Seq<u8>) -> bool {
    valid_utf8(bytes) ==> text == decode_utf8(bytes)
}

/// Standard library's `Path::display`, written out: the text of the path. What stands for parts
/// that are no text depends on the platform and is not said.
#[verifier::external_body]
fn path_text(path: &PathBuf) -> (res: String)
    ensures
        shows_path(res@, path_buf_bytes(*path)),
{
    path.display().to_string()
}

/// Whether `text` is how the platform shows `path`.
pub closed spec fn is_shown_as(path: &PathBuf, text: Seq<char>) -> bool {
    exists|shown: String| #[trigger] call_ensures(path_text, (path,), shown) && text == shown@
}

/// The text that shows a path.
pub fn shown_path(path: &PathBuf) -> (res: String)
    ensures
        is_shown_as(path, res@),
        shows_path(res@, path_buf_bytes(*path)),
{
    path_text(path)
}

/// The directory to create before a file in `parent` is written: none where there is no parent or
/// the parent is the current directory.
pub open spec fn needed_directory(parent: Option<PathBuf>) -> Option<PathBuf> {
    match parent {
        Some(dir) => if path_buf_bytes(dir).len() == 0 {
            None
        } else {
            Some(dir)
        },
        None => None,
    }
}

/// Whether `dir` is the directory to create for the parent of `destination`, whatever the platform
/// takes for its parent.
pub closed spec fn is_needed_for(destination: &PathBuf, dir: Option<PathBuf>) -> bool {
    exists|parent: Option<PathBuf>| #[trigger]
        call_ensures(parent_of, (destination,), parent) && dir == needed_directory(parent)
}

/// Decides which directory to create before a file in `parent` is written.
pub fn directory_to_create(parent: Option<PathBuf>) -> (res: Option<PathBuf>)
    ensures
        res == needed_directory(parent),
{
    match parent {
        Some(dir) => if is_empty_path(&dir) {
            None
        } else {
            Some(dir)
        },
        None => None,
    }
}

/// The directory to create before `destination` is written.
pub fn directory_for(destination: &PathBuf) -> (res: Option<PathBuf>)
    ensures
        is_needed_for(destination, res),
        res matches Some(dir) ==> {
            &&& path_buf_bytes(dir).len() > 0
            &&& path_buf_bytes(dir).is_prefix_of(path_buf_bytes(*destination))
        },
        path_buf_bytes(*destination).len() == 0 ==> res is None,
        path_buf_bytes(*destination) == seq![47u8] ==> res is None,
        is_plain_name(path_buf_bytes(*destination)) ==> res is None,
        forall|name: Seq<u8>|
            is_plain_name(name) && path_buf_bytes(*destination) == #[trigger] child_path(
                Seq::empty(),
                name,
            ) ==> is_path(res, seq![47u8]),
        forall|dir: Seq<u8>, name: Seq<u8>|
            is_plain_dir(dir) && is_plain_name(name) && path_buf_bytes(*destination)
                == #[trigger] child_path(dir, name) ==> is_path(res, dir),
{
    proof {
        assert forall|dir: Seq<u8>| is_plain_dir(dir) implies dir.len() > 0 by {}
    }
    directory_to_create(parent_of(destination))
}

/// A directory is created exactly where a parent has a name, and it is that parent.
pub proof fn law_only_named_parents_are_created(parent: Option<PathBuf>, res: Option<PathBuf>)
    requires
        call_ensures(directory_to_create, (parent,), res),
    ensures
        parent is None ==> res is None,
        parent matches Some(dir) ==> (if path_buf_bytes(dir).len() == 0 {
            res is None
        } else {
            res == Some(dir)
        }),
{
}

/// A file in a directory needs that directory, and a file name alone needs none.
pub proof fn law_a_file_needs_the_directory_that_it_is_in(
    destination: &PathBuf,
    res: Option<PathBuf>,
    dir: Seq<u8>,
    name: Seq<u8>,
)
    requires
        call_ensures(directory_for, (destination,), res),
        is_plain_name(name),
    ensures
        path_buf_bytes(*destination) == name ==> res is None,
        path_buf_bytes(*destination) == seq![47u8] + name ==> (res matches Some(needed)
            && path_buf_bytes(needed) == seq![47u8]),
        is_plain_dir(dir) && path_buf_bytes(*destination) == dir + seq![47u8] + name ==> (res
            matches Some(needed) && path_buf_bytes(needed) == dir),
{
    assert(child_path(Seq::empty(), name) =~= seq![47u8] + name);
    assert(child_path(dir, name) == dir + seq![47u8] + name);
}

/// A path is shown as the platform shows it, which is the text that it encodes where it is valid
/// UTF-8.
proof fn law_paths_are_shown_as_they_read(path: &PathBuf, text: String)
    requires
        call_ensures(shown_path, (path,), text),
    ensures
        exists|shown: String| #[trigger] call_ensures(path_text, (path,), shown) && text@ == shown@,
        valid_utf8(path_buf_bytes(*path)) ==> text@ == decode_utf8(path_buf_bytes(*path)),
{
}

/// The directory that a file needs is its parent, as the platform sees it, unless that is empty.
proof fn law_the_needed_directory_is_the_parent(destination: &PathBuf, res: Option<PathBuf>)
    requires
        call_ensures(directory_for, (destination,), res),
    ensures
        exists|parent: Option<PathBuf>| #[trigger]
            call_ensures(parent_of, (destination,), parent) && (parent is None ==> res is None) && (
            parent is Some ==> (if path_buf_bytes(parent->0).len() == 0 {
                res is None
            } else {
                res == parent
            })),
{
    let parent = choose|parent: Option<PathBuf>| #[trigger]
        call_ensures(parent_of, (destination,), parent) && res == needed_directory(parent);
    assert(call_ensures(parent_of, (destination,), parent));
}

} // verus!
