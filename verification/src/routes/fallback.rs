//! The resolver: from a root directory and a request path to a response.
//!
//! Resolution needs the filesystem and a page renderer, which the library
//! does not touch. So the resolver is written as a decision: given what
//! the transport has seen so far, [`handler`] says what to do next, until
//! it says which response to send. It keeps nothing between calls.
//!
//! A file is served only when a media type can be guessed from its
//! extension. A path without one, or with one that is not known, goes
//! straight to the not-found fallback, whether or not the file exists.

use crate::listing::{listed, listing_entries, listing_pattern, pattern_of};
use crate::media::{guess, guessed_media_type};
use crate::path::{
    candidate_path,
    ends_with_slash,
    join,
    parent,
    search_directory,
    strip_leading_slash,
};
use crate::response::{
    failure_response,
    file_response,
    listing_response,
    not_found_response,
    Response,
    ResponseView,
};
use crate::state::State;
use vstd::prelude::*;

verus! {

/// What a request falls back to when no file can be served.
#[derive(Clone, Copy, Debug, PartialEq, Eq, Structural)]
pub enum Fallback {
    /// A bare `404`.
    Plain,
    /// A `404` whose body lists the HTML files near the requested path.
    Listing,
}

/// Where a request points: the file to serve, the media type guessed for
/// it, and the directory to list when it cannot be served.
#[derive(Clone, Debug, PartialEq, Eq)]
pub struct Target {
    pub path: String,
    pub media_type: Option<String>,
    pub search_directory: String,
}

/// The mathematical value of a [`Target`].
pub struct TargetView {
    pub path: Seq<char>,
    pub media_type: Option<Seq<char>>,
    pub search_directory: Seq<char>,
}

impl View for Target {
    type V = TargetView;

    open spec fn view(&self) -> TargetView {
        TargetView {
            path: self.path@,
            media_type: self.media_type.deep_view(),
            search_directory: self.search_directory@,
        }
    }
}

/// What the transport has seen since the request came in.
#[derive(Debug, PartialEq, Eq)]
pub enum Seen {
    /// Nothing yet.
    Nothing,
    /// The bytes of the file it was told to read, or `None` where the read
    /// failed, for whatever reason.
    File(Option<Vec<u8>>),
    /// The matches of the pattern it was told to enumerate, in enumeration
    /// order, `None` for each one that failed or could not be shown as a
    /// string. A pattern that could not be enumerated at all has no
    /// matches.
    Matches(Vec<Option<String>>),
    /// The page rendered from the list it was given, or the renderer's
    /// diagnostic text.
    Page(Result<String, String>),
}

/// The mathematical value of a [`Seen`].
pub enum SeenView {
    Nothing,
    File(Option<Seq<u8>>),
    Matches(Seq<Option<Seq<char>>>),
    Page(Result<Seq<char>, Seq<char>>),
}

impl View for Seen {
    type V = SeenView;

    open spec fn view(&self) -> SeenView {
        match self {
            Seen::Nothing => SeenView::Nothing,
            Seen::File(Some(body)) => SeenView::File(Some(body@)),
            Seen::File(None) => SeenView::File(None),
            Seen::Matches(matches) => SeenView::Matches(matches.deep_view()),
            Seen::Page(Ok(page)) => SeenView::Page(Ok(page@)),
            Seen::Page(Err(detail)) => SeenView::Page(Err(detail@)),
        }
    }
}

/// What the transport is to do next.
#[derive(Clone, Debug, PartialEq, Eq)]
pub enum Action {
    /// Read the file at `path` and report [`Seen::File`].
    Read { path: String },
    /// Enumerate the files that match `pattern` and report
    /// [`Seen::Matches`].
    Enumerate { pattern: String },
    /// Render a page from `list` and report [`Seen::Page`].
    Render { list: Vec<String> },
    /// Send the response. The request is done.
    Respond(Response),
}

/// The mathematical value of an [`Action`].
pub enum ActionView {
    Read { path: Seq<char> },
    Enumerate { pattern: Seq<char> },
    Render { list: Seq<Seq<char>> },
    Respond(ResponseView),
}

impl View for Action {
    type V = ActionView;

    open spec fn view(&self) -> ActionView {
        match self {
            Action::Read { path } => ActionView::Read { path: path@ },
            Action::Enumerate { pattern } => ActionView::Enumerate { pattern: pattern@ },
            Action::Render { list } => ActionView::Render { list: list.deep_view() },
            Action::Respond(response) => ActionView::Respond(response@),
        }
    }
}

/// Where the request path points beneath the root.
pub open spec fn target_of(root: Seq<char>, request_path: Seq<char>) -> TargetView {
    TargetView {
        path: candidate_path(root, request_path),
        media_type: guessed_media_type(candidate_path(root, request_path)),
        search_directory: search_directory(root, request_path),
    }
}

/// The first step of the not-found fallback.
pub open spec fn fallback_action(fallback: Fallback, target: TargetView) -> ActionView {
    match fallback {
        Fallback::Plain => ActionView::Respond(not_found_response()),
        Fallback::Listing => ActionView::Enumerate {
            pattern: pattern_of(target.search_directory),
        },
    }
}

/// What is to be done with the matches of the listing pattern: under the
/// listing fallback they are cut down to the listing's entries, which are
/// to be rendered. Under the plain fallback nothing is ever listed.
pub open spec fn matches_action(fallback: Fallback, matches: Seq<Option<Seq<char>>>)
    -> ActionView {
    match fallback {
        Fallback::Plain => ActionView::Respond(not_found_response()),
        Fallback::Listing => ActionView::Render { list: listed(matches) },
    }
}

/// The response once the renderer is done: under the listing fallback the
/// page as the body of a `404`, or the renderer's diagnostic as the body
/// of a `500`. Under the plain fallback nothing is ever rendered.
pub open spec fn page_response(fallback: Fallback, rendered: Result<Seq<char>, Seq<char>>)
    -> ResponseView {
    match fallback {
        Fallback::Plain => not_found_response(),
        Fallback::Listing => match rendered {
            Ok(page) => listing_response(page),
            Err(detail) => failure_response(detail),
        },
    }
}

/// What is to be done for a target after what has been seen.
///
/// With nothing seen, the file is read if a media type was guessed for it.
/// A file that was read is served, again only under a guessed media type.
/// Whatever cannot be served falls back; a failed read is never told
/// apart from a missing file.
pub open spec fn decision(fallback: Fallback, target: TargetView, seen: SeenView) -> ActionView {
    match seen {
        SeenView::Nothing => match target.media_type {
            Some(_) => ActionView::Read { path: target.path },
            None => fallback_action(fallback, target),
        },
        SeenView::File(Some(body)) => match target.media_type {
            Some(media_type) => ActionView::Respond(file_response(media_type, body)),
            None => fallback_action(fallback, target),
        },
        SeenView::File(None) => fallback_action(fallback, target),
        SeenView::Matches(matches) => matches_action(fallback, matches),
        SeenView::Page(rendered) => ActionView::Respond(page_response(fallback, rendered)),
    }
}

/// Finds where the request path points beneath the root: strips one
/// leading `/`, joins the rest to the root, appends `index.html` when the
/// request path ends in `/`, and guesses the media type of the result.
pub fn locate(root: &str, request_path: &str) -> (target: Target)
    ensures
        target@ == target_of(root@, request_path@),
{
    let index = ends_with_slash(request_path);
    let requested = join(root, strip_leading_slash(request_path));
    if index {
        let path = join(requested.as_str(), "index.html");
        let media_type = guess(path.as_str());
        Target { path, media_type, search_directory: requested }
    } else {
        let media_type = guess(requested.as_str());
        let search_directory = match parent(requested.as_str()) {
            Some(directory) => directory,
            None => requested.clone(),
        };
        Target { path: requested, media_type, search_directory }
    }
}

/// The first step of the not-found fallback.
fn fall_back(fallback: Fallback, target: &Target) -> (action: Action)
    ensures
        action@ == fallback_action(fallback, target@),
{
    match fallback {
        Fallback::Plain => Action::Respond(Response::not_found()),
        Fallback::Listing => Action::Enumerate {
            pattern: listing_pattern(target.search_directory.as_str()),
        },
    }
}

/// Decides what is to be done for a target after what has been seen.
pub fn decide(fallback: Fallback, target: &Target, seen: Seen) -> (action: Action)
    ensures
        action@ == decision(fallback, target@, seen@),
{
    match seen {
        Seen::Nothing => match &target.media_type {
            Some(_) => Action::Read { path: target.path.clone() },
            None => fall_back(fallback, target),
        },
        Seen::File(Some(body)) => match &target.media_type {
            Some(media_type) => Action::Respond(Response::file(media_type.as_str(), body)),
            None => fall_back(fallback, target),
        },
        Seen::File(None) => fall_back(fallback, target),
        Seen::Matches(matches) => match fallback {
            Fallback::Plain => Action::Respond(Response::not_found()),
            Fallback::Listing => Action::Render { list: listing_entries(&matches) },
        },
        Seen::Page(rendered) => Action::Respond(
            match fallback {
                Fallback::Plain => Response::not_found(),
                Fallback::Listing => match rendered {
                    Ok(page) => Response::listing(page.as_str()),
                    Err(detail) => Response::failure(detail.as_str()),
                },
            },
        ),
    }
}

/// Handles a request for `request_path` against the configured root
/// directory: says what the transport is to do next, given what it has
/// seen so far. The transport starts with [`Seen::Nothing`], performs each
/// action and reports what it saw, until the action is
/// [`Action::Respond`].
pub fn handler(state: &State, fallback: Fallback, request_path: &str, seen: Seen) -> (action:
    Action)
    ensures
        action@ == decision(fallback, target_of(state.root(), request_path@), seen@),
{
    let target = locate(state.args.directory.as_str(), request_path);
    decide(fallback, &target, seen)
}

} // verus!
