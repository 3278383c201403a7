//! Which file a request for a static asset is answered from.

use vstd::prelude::*;
use crate::text::{chars_of, count_leading, find_pair, has_pair, leading, text_of};

verus! {

/// What a request for a static asset asks for.
#[derive(Clone, Debug, PartialEq, Eq)]
pub enum StaticRequest {
    /// The path points outside the served directory and is refused.
    Rejected,
    /// The path is empty: the index page is served.
    Index,
    /// The file at this path below the served directory.
    File(String),
}

/// What contracts say of a value of [`StaticRequest`]: text stands as a sequence
/// of characters.
pub enum StaticRequestView {
    Rejected,
    Index,
    File(Seq<char>),
}

impl View for StaticRequest {
    type V = StaticRequestView;

    open spec fn view(&self) -> StaticRequestView {
        match self {
            StaticRequest::Rejected => StaticRequestView::Rejected,
            StaticRequest::Index => StaticRequestView::Index,
            StaticRequest::File(path) => StaticRequestView::File(path@),
        }
    }
}

/// Whether a path holds two dots in a row, as a step to a parent directory
/// does.
pub open spec fn has_parent_step(path: Seq<char>) -> bool {
    has_pair(path, '.', '.')
}

/// `path` without the slashes at its start.
pub open spec fn without_leading_slashes(path: Seq<char>) -> Seq<char> {
    path.skip(leading(path, '/') as int)
}

/// What a request for the given path of a URI asks for.
pub open spec fn static_request(uri_path: Seq<char>) -> StaticRequestView {
    let path = without_leading_slashes(uri_path);
    if has_parent_step(path) {
        StaticRequestView::Rejected
    } else if path.len() == 0 {
        StaticRequestView::Index
    } else {
        StaticRequestView::File(path)
    }
}

/// Whether a path holds two dots in a row. Such a path is never served.
pub fn contains_parent_step(path: &str) -> (found: bool)
    ensures
        found == has_parent_step(path@),
{
    let chars = chars_of(path);
    find_pair(&chars, '.', '.').is_some()
}

/// Decides what a request for the given path of a URI asks for.
///
/// Slashes at the start of the path do not count. A path with two dots in a
/// row is refused; an empty path asks for the index page; any other path
/// names a file below the served directory.
pub fn resolve_static_request(uri_path: &str) -> (request: StaticRequest)
    ensures
        request@ == static_request(uri_path@),
{
    let chars = chars_of(uri_path);
    let skip = count_leading(&chars, '/');
    let mut path: Vec<char> = Vec::new();
    let mut i: usize = skip;
    assert(chars@.subrange(skip as int, skip as int) =~= Seq::<char>::empty());
    while i < chars.len()
        invariant
            skip <= i <= chars.len(),
            path@ == chars@.subrange(skip as int, i as int),
        decreases chars.len() - i,
    {
        path.push(chars[i]);
        assert(chars@.subrange(skip as int, i + 1) =~= chars@.subrange(skip as int, i as int).push(
            chars@[i as int],
        ));
        i += 1;
    }
    assert(chars@.subrange(skip as int, chars.len() as int) =~= chars@.skip(skip as int));
    if find_pair(&path, '.', '.').is_some() {
        StaticRequest::Rejected
    } else if path.len() == 0 {
        StaticRequest::Index
    } else {
        StaticRequest::File(text_of(&path))
    }
}

/// The content type that is guessed for a file with the given extension.
pub uninterp spec fn guessed_content_type(extension: Seq<char>) -> Seq<char>;

/// `mime_guess::from_ext` followed by `MimeGuess::first_or_octet_stream`: the
/// first content type that the crate's table lists for the extension,
/// looked up without regard to case, or `application/octet-stream` where it
/// lists none. The result depends on the extension alone.
#[verifier::external_body]
fn guess_content_type(extension: &str) -> (content_type: String)
    ensures
        content_type@ == guessed_content_type(extension@),
{
    mime_guess::from_ext(extension).first_or_octet_stream().to_string()
}

/// The content type under which a file with the given extension is served.
/// A file without extension has the empty extension.
pub fn content_type(extension: &str) -> (content_type: String)
    ensures
        content_type@ == guessed_content_type(extension@),
{
    guess_content_type(extension)
}

} // verus!
