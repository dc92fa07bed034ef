//! Raw GET requests: from the caller's text to the request that is sent.

use crate::http_ext::{
    describe_invalid_uri, get_request, get_view, invalid_uri_text, parse_uri, parsed_uri,
    request_view, RequestView,
};
use http::uri::InvalidUri;
use http::{Request, Uri};
use kube::Client;
use vstd::prelude::*;

verus! {

/// The view of the request that is made for a target: a GET with no header
/// field and an empty body.
pub open spec fn bare_get(uri: Uri) -> RequestView {
    get_view(uri, Seq::empty())
}

/// What is made of a parsed target: a bare GET for a URI, the parser's
/// message for an error.
pub open spec fn request_for_spec(parsed: Result<Uri, InvalidUri>) -> Result<
    RequestView,
    Seq<char>,
> {
    match parsed {
        Ok(uri) => Ok(bare_get(uri)),
        Err(error) => Err(invalid_uri_text(error)),
    }
}

/// What is made of a caller's text: it is parsed as a URI, and nothing else
/// is asked of it.
pub open spec fn raw_request_spec(path: Seq<char>) -> Result<RequestView, Seq<char>> {
    request_for_spec(parsed_uri(path))
}

/// A prepared request, or the failure text, as mathematical values.
pub open spec fn prepared_view(prepared: Result<Request<Vec<u8>>, String>) -> Result<
    RequestView,
    Seq<char>,
> {
    match prepared {
        Ok(request) => Ok(request_view(request)),
        Err(message) => Err(message@),
    }
}

/// The request for a parsed target: a GET for it with an empty body, or the
/// parser's message where the text was no URI.
pub fn request_for(parsed: Result<Uri, InvalidUri>) -> (prepared: Result<Request<Vec<u8>>, String>)
    ensures
        prepared_view(prepared) == request_for_spec(parsed),
{
    match parsed {
        Ok(uri) => Ok(get_request(uri, Vec::new())),
        Err(error) => Err(describe_invalid_uri(&error)),
    }
}

/// The request for a caller's text: a GET for the URI that the text spells,
/// with an empty body, or the parser's message where it spells none.
///
/// Any target that parses is let through, one on another host too: the
/// text is not held to the cluster's own address, nor joined to any base.
/// What the client then makes of the target is the client's affair.
pub fn raw_request(path: &str) -> (prepared: Result<Request<Vec<u8>>, String>)
    ensures
        prepared_view(prepared) == raw_request_spec(path@),
{
    request_for(parse_uri(path))
}

/// Two preparations of the same text hand the client the same request, or
/// fail with the same message: nothing but the text decides.
pub proof fn same_text_prepares_the_same_request(
    path: Seq<char>,
    first: Result<Request<Vec<u8>>, String>,
    second: Result<Request<Vec<u8>>, String>,
)
    requires
        prepared_view(first) == raw_request_spec(path),
        prepared_view(second) == raw_request_spec(path),
    ensures
        prepared_view(first) == prepared_view(second),
        first is Ok <==> second is Ok,
{
}

/// A raw request that is ready to be sent: the client to send it with and
/// the request.
pub struct RawCall {
    pub client: Client,
    pub request: Request<Vec<u8>>,
}

/// Joins a prepared request with the outcome of connecting. A failure to
/// connect is handed on as it came, and there is nothing to send; with a
/// client, the call is that client and the request as it was prepared.
pub fn raw_call(connected: Result<Client, String>, request: Request<Vec<u8>>) -> (ready: Result<
    RawCall,
    String,
>)
    ensures
        match connected {
            Err(message) => ready == Err::<RawCall, String>(message),
            Ok(client) => ready == Ok::<RawCall, String>(RawCall { client, request }),
        },
{
    match connected {
        Err(message) => Err(message),
        Ok(client) => Ok(RawCall { client, request }),
    }
}

/// Prepares a raw request from the caller's text and the outcome of
/// connecting. The text is judged first: where it spells no URI, the
/// parser's message is the failure, whatever came of connecting. Where it
/// spells one, a failure to connect is handed on as it came, and with a
/// client the call is ready.
pub fn prepare_raw(connected: Result<Client, String>, path: &str) -> (prepared: Result<
    RawCall,
    String,
>)
    ensures
        match raw_request_spec(path@) {
            Err(text) => prepared matches Err(message) && message@ == text,
            Ok(view) => match connected {
                Err(message) => prepared == Err::<RawCall, String>(message),
                Ok(client) => prepared matches Ok(call) && call.client == client && request_view(
                    call.request,
                ) == view,
            },
        },
{
    match raw_request(path) {
        Err(message) => Err(message),
        Ok(request) => raw_call(connected, request),
    }
}

} // verus!
