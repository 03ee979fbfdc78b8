//! Media types guessed from file extensions.

use vstd::prelude::*;

verus! {

/// The first media type that `mime_guess::from_path` guesses for `path`
/// from its extension, written out as text; `None` where it guesses none.
pub uninterp spec fn guessed_media_type(path: Seq<char>) -> Option<Seq<char>>;

/// Calls `mime_guess::from_path(path).first()` and writes the media type
/// out as text. No disk access is performed.
///
/// Trusted: the result is a function of the path's text alone, and
/// [`guessed_media_type`] is its name. Nothing else is claimed of it.
#[verifier::external_body]
pub(crate) fn guess(path: &str) -> (media_type: Option<String>)
    ensures
        media_type.deep_view() == guessed_media_type(path@),
{
    mime_guess::from_path(path).first().map(|mime| mime.to_string())
}

} // verus!
