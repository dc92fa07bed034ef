//! The items of the `http` crate that the library relies on. Nothing in
//! this file is proved: each contract restates what the crate's source
//! shows.

use http::uri::InvalidUri;
use http::{Request, Uri};
use vstd::prelude::*;

verus! {

/// `http::Uri`: a parsed URI. Opaque to the verifier, and only carried from
/// the parser into a request.
#[verifier::external_type_specification]
#[verifier::external_body]
pub struct ExUri(http::Uri);

/// `http::uri::InvalidUri`: why a text is no URI. Opaque to the verifier;
/// `invalid_uri_text` stands for its message.
#[verifier::external_type_specification]
#[verifier::external_body]
pub struct ExInvalidUri(http::uri::InvalidUri);

/// `http::Request`: a request head with a body. Opaque to the verifier;
/// `request_view` stands for what one with a byte body holds.
#[verifier::external_type_specification]
#[verifier::external_body]
#[verifier::reject_recursive_types(T)]
pub struct ExRequest<T>(http::Request<T>);

/// What a request with a byte body holds: its method by name, its target,
/// how many header fields it has, and its body.
pub struct RequestView {
    pub method: Seq<char>,
    pub uri: Uri,
    pub headers: nat,
    pub body: Seq<u8>,
}

/// What parsing a text as a URI returns: the URI, or the reason why the
/// text is none. The parser reads nothing but the text.
pub uninterp spec fn parsed_uri(text: Seq<char>) -> Result<Uri, InvalidUri>;

/// The message that an `InvalidUri` displays.
pub uninterp spec fn invalid_uri_text(error: InvalidUri) -> Seq<char>;

/// What a request with a byte body holds.
pub uninterp spec fn request_view(request: Request<Vec<u8>>) -> RequestView;

/// The view of a GET request for a target, with no header field and the
/// given body.
pub open spec fn get_view(uri: Uri, body: Seq<u8>) -> RequestView {
    RequestView { method: "GET"@, uri, headers: 0, body }
}

/// `<Uri as FromStr>::from_str`, reached through `str::parse`: the URI that
/// the text spells, or the parser's error.
#[verifier::external_body]
pub(crate) fn parse_uri(text: &str) -> (parsed: Result<Uri, InvalidUri>)
    ensures
        parsed == parsed_uri(text@),
{
    text.parse::<Uri>()
}

/// `<InvalidUri as Display>::fmt`, reached through `to_string`: the error's
/// message.
#[verifier::external_body]
pub(crate) fn describe_invalid_uri(error: &InvalidUri) -> (text: String)
    ensures
        text@ == invalid_uri_text(*error),
{
    error.to_string()
}

/// `Request::builder`, `Builder::uri` and `Builder::body`: a new builder
/// has the method GET and no header field, `uri` sets the target, and
/// `body` attaches the body. With a parsed URI the builder holds no error,
/// so `body` returns `Ok`.
#[verifier::external_body]
pub(crate) fn get_request(uri: Uri, body: Vec<u8>) -> (request: Request<Vec<u8>>)
    ensures
        request_view(request) == get_view(uri, body@),
{
    Request::builder().uri(uri).body(body).unwrap()
}

} // verus!
