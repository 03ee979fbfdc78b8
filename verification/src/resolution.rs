//! What a request resolves to, stated against a model of everything the
//! resolver does not do itself, and the laws that hold of it.

use crate::listing::{listed, pattern_of};
use crate::media::guessed_media_type;
use crate::path::{index_file, is_index_request, joined_path, requested_path};
use crate::response::{
    failure_response,
    file_response,
    listing_response,
    not_found_response,
    ResponseView,
    Status,
};
use crate::routes::fallback::{
    decision,
    target_of,
    ActionView,
    Fallback,
    SeenView,
    TargetView,
};
use vstd::prelude::*;

verus! {

/// Everything outside the library that a response depends on: the files
/// that can be read, what each pattern enumerates, and what the renderer
/// makes of each list.
pub struct World {
    /// The bytes of each readable file; `None` for a path that cannot be
    /// read as a file, whatever the reason.
    pub files: spec_fn(Seq<char>) -> Option<Seq<u8>>,
    /// The matches of each pattern, in enumeration order.
    pub matches: spec_fn(Seq<char>) -> Seq<Option<Seq<char>>>,
    /// The page rendered from each list, or the renderer's diagnostic.
    pub pages: spec_fn(Seq<Seq<char>>) -> Result<Seq<char>, Seq<char>>,
}

impl World {
    /// What the transport sees when it performs `action` in this world.
    pub open spec fn performed(self, action: ActionView) -> SeenView {
        match action {
            ActionView::Read { path } => SeenView::File((self.files)(path)),
            ActionView::Enumerate { pattern } => SeenView::Matches((self.matches)(pattern)),
            ActionView::Render { list } => SeenView::Page((self.pages)(list)),
            ActionView::Respond(_) => SeenView::Nothing,
        }
    }

    /// The entries that are listed for `directory` in this world.
    pub open spec fn listing(self, directory: Seq<char>) -> Seq<Seq<char>> {
        listed((self.matches)(pattern_of(directory)))
    }
}

/// The response to a request that cannot be served a file.
pub open spec fn fallback_response(fallback: Fallback, target: TargetView, world: World)
    -> ResponseView {
    match fallback {
        Fallback::Plain => not_found_response(),
        Fallback::Listing => match (world.pages)(world.listing(target.search_directory)) {
            Ok(page) => listing_response(page),
            Err(detail) => failure_response(detail),
        },
    }
}

/// The response to a request for `target` in `world`: the file, if a media
/// type was guessed for it and it can be read, and the fallback otherwise.
pub open spec fn resolve(fallback: Fallback, target: TargetView, world: World) -> ResponseView {
    match (target.media_type, (world.files)(target.path)) {
        (Some(media_type), Some(body)) => file_response(media_type, body),
        _ => fallback_response(fallback, target, world),
    }
}

/// The response that a transport ends with when it has seen `seen`, goes
/// on as [`decision`] says, and performs at most `steps` more actions in
/// `world`; `None` if it is not done by then.
pub open spec fn response_within(
    fallback: Fallback,
    target: TargetView,
    world: World,
    seen: SeenView,
    steps: nat,
) -> Option<ResponseView>
    decreases steps,
{
    match decision(fallback, target, seen) {
        ActionView::Respond(response) => Some(response),
        action => if steps == 0 {
            None
        } else {
            response_within(fallback, target, world, world.performed(action), (steps - 1) as nat)
        },
    }
}

/// Two worlds look alike to a request when its file reads the same in
/// both, its search directory lists the same, and that list renders the
/// same.
pub open spec fn alike(target: TargetView, one: World, other: World) -> bool {
    &&& (one.files)(target.path) == (other.files)(target.path)
    &&& one.listing(target.search_directory) == other.listing(target.search_directory)
    &&& (one.pages)(one.listing(target.search_directory)) == (other.pages)(
        other.listing(target.search_directory),
    )
}

/// A transport that starts with nothing seen and does what the handler
/// says is told to respond after at most three actions, and the response
/// is the one the request resolves to.
pub proof fn transport_reaches_resolution(
    fallback: Fallback,
    root: Seq<char>,
    request_path: Seq<char>,
    world: World,
)
    ensures
        response_within(fallback, target_of(root, request_path), world, SeenView::Nothing, 3)
            == Some(resolve(fallback, target_of(root, request_path), world)),
{
    reveal_with_fuel(response_within, 4);
}

/// A request path that does not end in `/` is served the file at the root
/// joined with the path less its leading `/`, byte for byte, under the
/// content type of the media type guessed for that file, whenever one is
/// guessed and the file can be read.
pub proof fn existing_file_is_served(
    fallback: Fallback,
    root: Seq<char>,
    request_path: Seq<char>,
    world: World,
    media_type: Seq<char>,
    body: Seq<u8>,
)
    requires
        !is_index_request(request_path),
        guessed_media_type(requested_path(root, request_path)) == Some(media_type),
        (world.files)(requested_path(root, request_path)) == Some(body),
    ensures
        resolve(fallback, target_of(root, request_path), world) == file_response(media_type, body),
{
}

/// A request path that ends in `/` resolves as the file `index.html`
/// inside the requested directory does: that file is the one whose media
/// type is guessed and whose bytes are served, and the requested directory
/// is the one that is listed when it cannot be.
pub proof fn index_request_resolves_index_file(
    fallback: Fallback,
    root: Seq<char>,
    request_path: Seq<char>,
    world: World,
)
    requires
        is_index_request(request_path),
    ensures
        ({
            let directory = requested_path(root, request_path);
            let index = joined_path(directory, index_file());
            let target = TargetView {
                path: index,
                media_type: guessed_media_type(index),
                search_directory: directory,
            };
            &&& target_of(root, request_path) == target
            &&& resolve(fallback, target_of(root, request_path), world) == resolve(
                fallback,
                target,
                world,
            )
        }),
{
}

/// The response depends on nothing but the request and what the world
/// shows of it: in two worlds that look alike to a request, the request
/// resolves to the same response.
pub proof fn same_tree_same_response(
    fallback: Fallback,
    root: Seq<char>,
    request_path: Seq<char>,
    one: World,
    other: World,
)
    requires
        alike(target_of(root, request_path), one, other),
    ensures
        resolve(fallback, target_of(root, request_path), one) == resolve(
            fallback,
            target_of(root, request_path),
            other,
        ),
{
}

/// A request for which no media type is guessed, or whose file cannot be
/// read, gets the not-found fallback: never the file, and under the plain
/// fallback always the bare `404`.
pub proof fn unservable_request_falls_back(
    fallback: Fallback,
    root: Seq<char>,
    request_path: Seq<char>,
    world: World,
)
    requires
        ({
            let target = target_of(root, request_path);
            target.media_type is None || (world.files)(target.path) is None
        }),
    ensures
        ({
            let target = target_of(root, request_path);
            let response = resolve(fallback, target, world);
            &&& response == fallback_response(fallback, target, world)
            &&& response.status != Status::Success
            &&& fallback == Fallback::Plain ==> response == not_found_response()
        }),
{
}

/// Under the plain fallback nothing is listed and nothing fails, whatever
/// the transport reports: it is asked to read the target's file or told to
/// respond, and the response is that file or the bare `404`.
pub proof fn plain_fallback_reads_or_responds(target: TargetView, seen: SeenView)
    ensures
        match decision(Fallback::Plain, target, seen) {
            ActionView::Read { path } => path == target.path,
            ActionView::Respond(response) => {
                ||| response == not_found_response()
                ||| response.status == Status::Success
            },
            _ => false,
        },
{
}

/// A request ends in a server error only when the listing fallback is in
/// force, no file could be served, and the renderer failed; the body is
/// then the renderer's diagnostic.
pub proof fn failure_only_from_rendering(
    fallback: Fallback,
    root: Seq<char>,
    request_path: Seq<char>,
    world: World,
)
    ensures
        ({
            let target = target_of(root, request_path);
            let response = resolve(fallback, target, world);
            let rendered = (world.pages)(world.listing(target.search_directory));
            &&& response.status == Status::ServerError <==> {
                &&& fallback == Fallback::Listing
                &&& target.media_type is None || (world.files)(target.path) is None
                &&& rendered is Err
            }
            &&& response.status == Status::ServerError ==> response == failure_response(
                rendered->Err_0,
            )
        }),
{
}

} // verus!
