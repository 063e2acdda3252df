//! The HTTP client that requests are sent with.

use vstd::prelude::*;
use vstd::string::*;
use vstd::utf8::encode_utf8;
use crate::error::{Failure, SttError};
use crate::headers::{
    build_headers, default_headers, header_entries, invalid_value_detail, is_usable_key,
    no_headers,
};
use crate::provider::TranscriptionProvider;
use reqwest::header::HeaderMap;

verus! {

#[verifier::external_type_specification]
#[verifier::external_body]
pub struct ExClient(reqwest::Client);

#[verifier::external_type_specification]
#[verifier::external_body]
pub struct ExReqwestError(reqwest::Error);

/// The text that a `reqwest::Error` displays.
pub uninterp spec fn reqwest_error_message(error: reqwest::Error) -> Seq<char>;

/// The headers that a client sends with every request unless the request
/// sets them itself: for each name, in lower case, the bytes of its value.
pub uninterp spec fn client_default_headers(client: reqwest::Client) -> Map<Seq<char>, Seq<u8>>;

/// The one header that a client has before any is handed to it.
pub open spec fn builder_headers() -> Map<Seq<char>, Seq<u8>> {
    no_headers().insert("accept"@, encode_utf8("*/*"@))
}

/// The default headers of a client that was handed `given`: those, and the
/// builder's own where `given` has none of that name.
pub open spec fn client_headers(given: Map<Seq<char>, Seq<u8>>) -> Map<Seq<char>, Seq<u8>> {
    builder_headers().union_prefer_right(given)
}

/// Builds a client with `reqwest::Client::builder`, `default_headers` and
/// `build`; `default_headers` panics on a map grown beyond its limit.
/// Trusted: a client that comes back has the given headers over the
/// builder's own as its defaults. Whether one comes back depends on the
/// machine, so nothing is said of that.
#[verifier::external_body]
fn client_with_headers(headers: HeaderMap) -> (r: Result<reqwest::Client, reqwest::Error>)
    requires
        header_entries(headers).dom().finite(),
        header_entries(headers).dom().len() < 1024,
    ensures
        r matches Ok(client) ==> client_default_headers(client) == client_headers(
            header_entries(headers),
        ),
{
    reqwest::Client::builder().default_headers(headers).build()
}

/// Renders a `reqwest::Error` through its `Display` impl. Trusted: the
/// result is the text the error displays.
#[verifier::external_body]
pub(crate) fn reqwest_error_text(error: &reqwest::Error) -> (r: String)
    ensures
        r@ == reqwest_error_message(*error),
{
    format!("{}", error)
}

/// Turns what the builder handed back into the library's outcome: the client
/// as it is, or a failure with the builder's text.
pub fn client_outcome(built: Result<reqwest::Client, reqwest::Error>) -> (r: Result<
    reqwest::Client,
    SttError,
>)
    ensures
        match built {
            Ok(client) => r == Ok::<reqwest::Client, SttError>(client),
            Err(error) => r matches Err(e) && e@ == (Failure::ClientBuild {
                detail: reqwest_error_message(error),
            }),
        },
{
    match built {
        Ok(client) => Ok(client),
        Err(error) => Err(SttError::ClientBuild { detail: reqwest_error_text(&error) }),
    }
}

/// Whether an outcome is what setting up a client for a key may give: for a
/// key that cannot be sent, the refusal of the key; for any other key, a
/// client whose defaults are the key's headers over the builder's own, or
/// the builder's failure.
pub open spec fn is_client_for(outcome: Result<reqwest::Client, SttError>, api_key: Seq<char>) -> bool {
    if is_usable_key(api_key) {
        match outcome {
            Ok(client) => client_default_headers(client) == client_headers(
                default_headers(api_key),
            ),
            Err(error) => error@ is ClientBuild,
        }
    } else {
        outcome matches Err(error) && error@ == (Failure::HeaderConstruction {
            detail: invalid_value_detail(),
        })
    }
}

/// Sets up a client that sends the default headers with every request. No
/// request is made here. A key that cannot be sent is refused before the
/// client is built.
pub fn create_client(provider: &TranscriptionProvider, api_key: &str) -> (r: Result<
    reqwest::Client,
    SttError,
>)
    ensures
        is_client_for(r, api_key@),
{
    broadcast use {
        vstd::set::axiom_set_empty_finite,
        vstd::set::axiom_set_empty_len,
        vstd::set::axiom_set_insert_finite,
        vstd::set::axiom_set_insert_len,
        vstd::map::axiom_map_insert_domain,
        vstd::map::axiom_map_empty,
    };

    match build_headers(provider, api_key) {
        Ok(headers) => client_outcome(client_with_headers(headers)),
        Err(error) => Err(error),
    }
}

} // verus!
