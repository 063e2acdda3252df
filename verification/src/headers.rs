//! The headers that every request carries.

use vstd::prelude::*;
use vstd::string::*;
use vstd::utf8::encode_utf8;
use crate::error::{Failure, SttError};
use crate::provider::TranscriptionProvider;
use reqwest::header::{HeaderMap, HeaderValue, InvalidHeaderValue};

verus! {

#[verifier::external_type_specification]
#[verifier::external_body]
#[verifier::reject_recursive_types(T)]
pub struct ExHeaderMap<T>(HeaderMap<T>);

#[verifier::external_type_specification]
#[verifier::external_body]
pub struct ExHeaderValue(HeaderValue);

#[verifier::external_type_specification]
#[verifier::external_body]
pub struct ExInvalidHeaderValue(InvalidHeaderValue);

/// The headers of a map: for each name in it, in lower case, the bytes of the
/// value that was stored under the name last.
pub uninterp spec fn header_entries(map: HeaderMap) -> Map<Seq<char>, Seq<u8>>;

/// The bytes of a header value.
pub uninterp spec fn header_value_bytes(value: HeaderValue) -> Seq<u8>;

/// Whether a byte may stand in a header value: no control character but the
/// tab.
pub open spec fn is_value_byte(b: u8) -> bool {
    (b >= 32 && b != 127) || b == 9
}

/// Whether a text can be a header value: each byte of its UTF-8 form may
/// stand in one.
pub open spec fn is_header_value(content: Seq<char>) -> bool {
    forall|i: int|
        0 <= i < encode_utf8(content).len() ==> is_value_byte(#[trigger] encode_utf8(content)[i])
}

/// Whether a character is printable ASCII or the tab.
pub open spec fn is_visible_ascii(c: char) -> bool {
    (' ' <= c && c <= '~') || c == '\t'
}

/// Whether a text is made of printable ASCII and tabs.
pub open spec fn is_visible_text(content: Seq<char>) -> bool {
    forall|i: int| 0 <= i < content.len() ==> is_visible_ascii(#[trigger] content[i])
}

/// Whether a text is a header name in lower case, of the characters that
/// this library's names are made of.
pub open spec fn is_plain_header_name(name: Seq<char>) -> bool {
    &&& 0 < name.len() <= 64
    &&& forall|i: int|
        0 <= i < name.len() ==> {
            let c = #[trigger] name[i];
            ('a' <= c && c <= 'z') || ('0' <= c && c <= '9') || c == '-'
        }
}

/// The value of the `Authorization` header for a key.
pub open spec fn bearer(api_key: Seq<char>) -> Seq<char> {
    "Bearer "@ + api_key
}

/// Whether a key can be sent: it is empty, or its bearer value can be a
/// header value.
pub open spec fn is_usable_key(api_key: Seq<char>) -> bool {
    api_key.len() == 0 || is_header_value(bearer(api_key))
}

/// A map without headers.
pub open spec fn no_headers() -> Map<Seq<char>, Seq<u8>> {
    Map::empty()
}

/// The headers sent whatever the key: where the request comes from, what
/// sends it, and the application's title.
pub open spec fn identification_headers() -> Map<Seq<char>, Seq<u8>> {
    no_headers().insert(
        "referer"@,
        encode_utf8("https://github.com/cjpais/Handy"@),
    ).insert("user-agent"@, encode_utf8("Handy/1.0 (+https://github.com/cjpais/Handy)"@)).insert(
        "x-title"@,
        encode_utf8("Handy"@),
    )
}

/// The headers of every request made with a key: the identification, and the
/// bearer token unless the key is empty.
pub open spec fn default_headers(api_key: Seq<char>) -> Map<Seq<char>, Seq<u8>> {
    if api_key.len() == 0 {
        identification_headers()
    } else {
        identification_headers().insert("authorization"@, encode_utf8(bearer(api_key)))
    }
}

/// What is reported for a key that cannot be sent.
pub open spec fn invalid_value_detail() -> Seq<char> {
    "failed to parse header value"@
}

/// Makes an empty map with `HeaderMap::new`. Trusted: it holds no header.
#[verifier::external_body]
fn empty_header_map() -> (r: HeaderMap)
    ensures
        header_entries(r) == no_headers(),
{
    HeaderMap::new()
}

/// Makes a value with `HeaderValue::from_static`, which panics on a byte
/// that is not printable ASCII or a tab. Trusted: the value holds the bytes
/// of the text.
#[verifier::external_body]
fn static_header_value(content: &'static str) -> (r: HeaderValue)
    requires
        is_visible_text(content@),
    ensures
        header_value_bytes(r) == encode_utf8(content@),
{
    HeaderValue::from_static(content)
}

/// Makes a value with `HeaderValue::from_str`. Trusted: it succeeds exactly
/// when every byte of the text may stand in a header value, and the value
/// then holds the bytes of the text.
#[verifier::external_body]
fn header_value(content: &str) -> (r: Result<HeaderValue, InvalidHeaderValue>)
    ensures
        r is Ok <==> is_header_value(content@),
        r matches Ok(value) ==> header_value_bytes(value) == encode_utf8(content@),
{
    HeaderValue::from_str(content)
}

/// Renders an `InvalidHeaderValue` through its `Display` impl. Trusted: the
/// text is the one fixed sentence that the `http` crate writes there.
#[verifier::external_body]
fn invalid_value_text(error: &InvalidHeaderValue) -> (r: String)
    ensures
        r@ == invalid_value_detail(),
{
    format!("{}", error)
}

/// Sets a header with `HeaderMap::insert`, which panics on a name that is no
/// header name and on a map grown beyond its limit. Trusted: afterwards the
/// name has the given value and every other name has what it had.
#[verifier::external_body]
fn set_header(map: &mut HeaderMap, name: &'static str, value: HeaderValue)
    requires
        is_plain_header_name(name@),
        header_entries(*old(map)).dom().finite(),
        header_entries(*old(map)).dom().len() < 1024,
    ensures
        header_entries(*final(map)) == header_entries(*old(map)).insert(
            name@,
            header_value_bytes(value),
        ),
{
    map.insert(name, value);
}

/// Builds the default headers for a provider and a key. A key that cannot
/// stand in a header is refused here, before anything is sent.
pub fn build_headers(provider: &TranscriptionProvider, api_key: &str) -> (r: Result<
    HeaderMap,
    SttError,
>)
    ensures
        match r {
            Ok(headers) => is_usable_key(api_key@) && header_entries(headers) == default_headers(
                api_key@,
            ),
            Err(error) => !is_usable_key(api_key@) && error@ == (Failure::HeaderConstruction {
                detail: invalid_value_detail(),
            }),
        },
{
    broadcast use {
        vstd::set::axiom_set_empty_finite,
        vstd::set::axiom_set_empty_len,
        vstd::set::axiom_set_insert_finite,
        vstd::set::axiom_set_insert_len,
        vstd::map::axiom_map_insert_domain,
        vstd::map::axiom_map_empty,
    };

    proof {
        reveal_strlit("referer");
        reveal_strlit("user-agent");
        reveal_strlit("x-title");
        reveal_strlit("authorization");
        reveal_strlit("https://github.com/cjpais/Handy");
        reveal_strlit("Handy/1.0 (+https://github.com/cjpais/Handy)");
        reveal_strlit("Handy");
    }
    let mut headers = empty_header_map();
    set_header(&mut headers, "referer", static_header_value("https://github.com/cjpais/Handy"));
    set_header(
        &mut headers,
        "user-agent",
        static_header_value("Handy/1.0 (+https://github.com/cjpais/Handy)"),
    );
    set_header(&mut headers, "x-title", static_header_value("Handy"));
    assert(header_entries(headers) == identification_headers());
    if !api_key.is_empty() {
        let mut token = String::from_str("Bearer ");
        token.append(api_key);
        match header_value(token.as_str()) {
            Ok(value) => {
                set_header(&mut headers, "authorization", value);
            },
            Err(error) => {
                return Err(SttError::HeaderConstruction { detail: invalid_value_text(&error) });
            },
        }
    }
    Ok(headers)
}

/// The identification headers are always sent. The `Authorization` header
/// is sent exactly when the key is not empty, and then its value is the
/// word `Bearer`, a space and the key, byte for byte.
pub proof fn lemma_authorization_follows_key(api_key: Seq<char>)
    ensures
        default_headers(api_key).contains_key("referer"@),
        default_headers(api_key).contains_key("user-agent"@),
        default_headers(api_key).contains_key("x-title"@),
        api_key.len() == 0 ==> !default_headers(api_key).contains_key("authorization"@),
        api_key.len() > 0 ==> default_headers(api_key).contains_key("authorization"@)
            && default_headers(api_key)["authorization"@] == encode_utf8("Bearer "@ + api_key),
{
    reveal_strlit("referer");
    reveal_strlit("user-agent");
    reveal_strlit("x-title");
    reveal_strlit("authorization");
    assert("referer"@ != "authorization"@) by {
        assert("referer"@.len() != "authorization"@.len());
    }
    assert("user-agent"@ != "authorization"@) by {
        assert("user-agent"@.len() != "authorization"@.len());
    }
    assert("x-title"@ != "authorization"@) by {
        assert("x-title"@.len() != "authorization"@.len());
    }
}

} // verus!
