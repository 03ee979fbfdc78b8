//! Request paths and the filesystem paths they resolve to.
//!
//! The root directory is trusted and the request path is taken as it
//! comes. Nothing here confines the resolved path to the root: `..`
//! segments are joined as they stand, and only one leading `/` is
//! stripped, so a request path with a second one leaves a fragment that
//! is still absolute.

use camino::Utf8Path;
use vstd::prelude::*;

verus! {

/// What `camino::Utf8Path::join` returns for `base` with `path` adjoined,
/// as strings, on the platform the library is built for.
pub uninterp spec fn joined_path(base: Seq<char>, path: Seq<char>) -> Seq<char>;

/// What `camino::Utf8Path::parent` returns for `path`, as strings, on the
/// platform the library is built for: the path without its final
/// component, if it has one.
pub uninterp spec fn parent_path(path: Seq<char>) -> Option<Seq<char>>;

/// Calls `camino::Utf8Path::join` on `base` with `path`.
///
/// Trusted: the result is a function of the two strings alone, and
/// [`joined_path`] is its name. Nothing else is claimed of it.
#[verifier::external_body]
pub(crate) fn join(base: &str, path: &str) -> (joined: String)
    ensures
        joined@ == joined_path(base@, path@),
{
    Utf8Path::new(base).join(path).into_string()
}

/// Calls `camino::Utf8Path::parent` on `path`.
///
/// Trusted: the result is a function of the string alone, and
/// [`parent_path`] is its name. Nothing else is claimed of it.
#[verifier::external_body]
pub(crate) fn parent(path: &str) -> (parent: Option<String>)
    ensures
        parent.deep_view() == parent_path(path@),
{
    Utf8Path::new(path).parent().map(|dir| dir.as_str().to_owned())
}

/// The file name that stands for a directory.
pub open spec fn index_file() -> Seq<char> {
    "index.html"@
}

/// A request path asks for a directory's index when it ends in `/`.
pub open spec fn is_index_request(request_path: Seq<char>) -> bool {
    request_path.len() > 0 && request_path.last() == '/'
}

/// The request path without its one leading `/`, if it has one. Further
/// slashes stay.
pub open spec fn relative_fragment(request_path: Seq<char>) -> Seq<char> {
    if request_path.len() > 0 && request_path[0] == '/' {
        request_path.subrange(1, request_path.len() as int)
    } else {
        request_path
    }
}

/// The root joined with the relative fragment of the request path.
pub open spec fn requested_path(root: Seq<char>, request_path: Seq<char>) -> Seq<char> {
    joined_path(root, relative_fragment(request_path))
}

/// The file that a request resolves to: the requested path, or the
/// `index.html` inside it when the request asks for an index.
pub open spec fn candidate_path(root: Seq<char>, request_path: Seq<char>) -> Seq<char> {
    if is_index_request(request_path) {
        joined_path(requested_path(root, request_path), index_file())
    } else {
        requested_path(root, request_path)
    }
}

/// The directory whose HTML files are listed when the candidate cannot be
/// served: the requested directory for an index request, otherwise the
/// candidate's parent, or the candidate itself where it has none.
pub open spec fn search_directory(root: Seq<char>, request_path: Seq<char>) -> Seq<char> {
    if is_index_request(request_path) {
        requested_path(root, request_path)
    } else {
        match parent_path(candidate_path(root, request_path)) {
            Some(dir) => dir,
            None => candidate_path(root, request_path),
        }
    }
}

/// Whether the request path ends in `/`.
pub fn ends_with_slash(request_path: &str) -> (index: bool)
    ensures
        index == is_index_request(request_path@),
{
    let len: usize = request_path.unicode_len();
    len > 0 && request_path.get_char(len - 1) == '/'
}

/// Strips exactly one leading `/`, if there is one.
pub fn strip_leading_slash(request_path: &str) -> (fragment: &str)
    ensures
        fragment@ == relative_fragment(request_path@),
{
    let len: usize = request_path.unicode_len();
    if len > 0 && request_path.get_char(0) == '/' {
        request_path.substring_char(1, len)
    } else {
        request_path
    }
}

} // verus!
