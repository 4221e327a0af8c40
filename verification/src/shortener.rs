//! The link shortener client: the request it makes and what it takes from
//! the reply.

use crate::text::{percent_encode, percent_encoded};
use vstd::prelude::*;
use vstd::string::StringExecFns;
use vstd::utf8::encode_utf8;

verus! {

/// Where links are shortened.
pub const SHORTENER_ENDPOINT: &'static str = "https://xgd.io/V1/shorten";

/// The body of a successful reply from the shortener.
#[derive(Clone, Debug, PartialEq, Eq)]
pub struct XgdResponse {
    pub shorturl: String,
}

/// What came back from one request to the shortener.
#[derive(Clone, Debug, PartialEq, Eq)]
pub enum ShortenReply {
    /// The request failed before a response arrived.
    Unreachable,
    /// A response arrived. `payload` is its decoded body; `None` where the
    /// body could not be read or is not the expected JSON object. It is only
    /// looked at for a success status.
    Response { status: u16, payload: Option<XgdResponse> },
}

/// Why shortening produced no link.
#[derive(Clone, Copy, Debug, PartialEq, Eq)]
pub enum ShortenError {
    /// No response arrived.
    NoResponse,
    /// The shortener reported success, but its body was unusable.
    UnusableBody,
}

/// Whether an HTTP status code lies in the success class (200 to 299).
pub open spec fn is_success_status(code: u16) -> bool {
    200 <= code < 300
}

/// The address of the shortening request: the endpoint with the
/// percent-encoded link and the API key as query parameters.
pub open spec fn shorten_request_url(long_url: Seq<char>, api_key: Seq<char>) -> Seq<char> {
    SHORTENER_ENDPOINT@ + "?url="@ + percent_encoded(encode_utf8(long_url)) + "&key="@ + api_key
}

/// What shortening `long_url` yields for a reply: the short link of a
/// successful reply, the unchanged link where the shortener answered with
/// another status, and an error where no usable reply came.
pub open spec fn shorten_outcome(long_url: Seq<char>, reply: ShortenReply) -> Result<
    Seq<char>,
    ShortenError,
> {
    match reply {
        ShortenReply::Unreachable => Err(ShortenError::NoResponse),
        ShortenReply::Response { status, payload } => if !is_success_status(status) {
            Ok(long_url)
        } else {
            match payload {
                Some(body) => Ok(body.shorturl@),
                None => Err(ShortenError::UnusableBody),
            }
        },
    }
}

/// The link that goes into the notification: the shortened one, or the
/// long one where shortening failed.
pub open spec fn link_or_unshortened(
    long_url: Seq<char>,
    outcome: Result<Seq<char>, ShortenError>,
) -> Seq<char> {
    match outcome {
        Ok(link) => link,
        Err(_) => long_url,
    }
}

/// Whether a reply carries no short link because shortening failed: no
/// response, a status outside the success class, or an unusable body.
pub open spec fn shortening_failed(reply: ShortenReply) -> bool {
    match reply {
        ShortenReply::Unreachable => true,
        ShortenReply::Response { status, payload } => !is_success_status(status) || payload is None,
    }
}

/// Where shortening failed, the link that goes into the notification is the
/// long one, unchanged.
pub proof fn lemma_failure_keeps_long_link(long_url: Seq<char>, reply: ShortenReply)
    requires
        shortening_failed(reply),
    ensures
        link_or_unshortened(long_url, shorten_outcome(long_url, reply)) == long_url,
{
}

/// Where the shortener answered with success and a usable body, the link
/// that goes into the notification is the short one.
pub proof fn lemma_success_uses_short_link(long_url: Seq<char>, status: u16, body: XgdResponse)
    requires
        is_success_status(status),
    ensures
        link_or_unshortened(
            long_url,
            shorten_outcome(long_url, ShortenReply::Response { status, payload: Some(body) }),
        ) == body.shorturl@,
{
}

/// Decides whether a reply with status `code` counts as a success.
pub fn status_is_success(code: u16) -> (ok: bool)
    ensures
        ok == is_success_status(code),
{
    200 <= code && code < 300
}

/// Builds the address to request for shortening `long_url`.
pub fn shorten_request(long_url: &str, api_key: &str) -> (url: String)
    ensures
        url@ == shorten_request_url(long_url@, api_key@),
{
    let mut url = String::from_str(SHORTENER_ENDPOINT);
    url.append("?url=");
    let encoded = percent_encode(long_url);
    url.append(encoded.as_str());
    url.append("&key=");
    url.append(api_key);
    url
}

/// Takes the short link out of the shortener's reply.
pub fn shorten(long_url: &str, reply: ShortenReply) -> (outcome: Result<String, ShortenError>)
    ensures
        match outcome {
            Ok(link) => shorten_outcome(long_url@, reply) == Ok::<Seq<char>, ShortenError>(link@),
            Err(e) => shorten_outcome(long_url@, reply) == Err::<Seq<char>, ShortenError>(e),
        },
{
    match reply {
        ShortenReply::Unreachable => Err(ShortenError::NoResponse),
        ShortenReply::Response { status, payload } => {
            if !status_is_success(status) {
                Ok(String::from_str(long_url))
            } else {
                match payload {
                    Some(body) => Ok(body.shorturl),
                    None => Err(ShortenError::UnusableBody),
                }
            }
        },
    }
}

/// Picks the link for the notification: the short one, or `long_url` where
/// shortening failed.
pub fn resolve_link(long_url: String, outcome: Result<String, ShortenError>) -> (link: String)
    ensures
        link@ == link_or_unshortened(
            long_url@,
            match outcome {
                Ok(s) => Ok(s@),
                Err(e) => Err(e),
            },
        ),
{
    match outcome {
        Ok(link) => link,
        Err(_) => long_url,
    }
}

} // verus!
