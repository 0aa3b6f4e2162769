use vstd::prelude::*;
use crate::error::ControllerError;
use vstd::string::StringSliceAdditionalSpecFns;
use vstd::utf8::encode_utf8;
use reqwest::header::{HeaderMap, HeaderValue, InvalidHeaderValue};

verus! {

/// The loopback origin of the daemon's API.
pub const BASE_URL: &'static str = "http://127.0.0.1:9993";

/// The header that carries the token on every request (header names are
/// case-insensitive; this is the form in which the map keeps it).
pub const AUTH_HEADER: &'static str = "x-zt1-auth";

/// The overall bound on one request, in seconds.
pub const REQUEST_TIMEOUT_SECS: u64 = 30;

#[verifier::external_type_specification]
#[verifier::external_body]
pub struct ExHeaderValue(reqwest::header::HeaderValue);

#[verifier::external_type_specification]
#[verifier::external_body]
pub struct ExInvalidHeaderValue(reqwest::header::InvalidHeaderValue);

#[verifier::external_type_specification]
#[verifier::external_body]
#[verifier::reject_recursive_types(T)]
pub struct ExHeaderMap<T>(reqwest::header::HeaderMap<T>);

#[verifier::external_type_specification]
#[verifier::external_body]
pub struct ExClient(reqwest::Client);

#[verifier::external_type_specification]
#[verifier::external_body]
pub struct ExClientBuilder(reqwest::ClientBuilder);

#[verifier::external_type_specification]
#[verifier::external_body]
pub struct ExReqwestError(reqwest::Error);

/// A character whose UTF-8 bytes may all stand in an HTTP header value:
/// a tab, or anything from the space upward but DEL. Every byte of a
/// multi-byte character is at least 0x80, so only the ASCII range decides.
pub open spec fn header_char_ok(c: char) -> bool {
    c == '\t' || (c as u32 >= 32 && c as u32 != 127)
}

/// A text that can be sent as a header value as it stands.
pub open spec fn header_text_ok(s: Seq<char>) -> bool {
    forall|i: int| 0 <= i < s.len() ==> #[trigger] header_char_ok(s[i])
}

/// A character that a static header name may hold as it stands: lower-case
/// letters, digits and dashes (a subset of the token characters, which the
/// header-name parser keeps unchanged).
pub open spec fn name_char_ok(c: char) -> bool {
    ('a' <= c && c <= 'z') || ('0' <= c && c <= '9') || c == '-'
}

/// A character with the Unicode White_Space property, which is what
/// `char::is_whitespace` tests.
pub open spec fn white_space(c: char) -> bool {
    let u = c as u32;
    (0x09 <= u && u <= 0x0D) || u == 0x20 || u == 0x85 || u == 0xA0 || u == 0x1680 || (0x2000 <= u
        && u <= 0x200A) || u == 0x2028 || u == 0x2029 || u == 0x202F || u == 0x205F || u == 0x3000
}

/// A text without its trailing whitespace.
pub open spec fn trimmed(s: Seq<char>) -> Seq<char>
    decreases s.len(),
{
    if s.len() > 0 && white_space(s.last()) {
        trimmed(s.drop_last())
    } else {
        s
    }
}

/// The entries of a header map: each name with the bytes of its value.
pub uninterp spec fn header_entries(m: HeaderMap) -> Map<Seq<char>, Seq<u8>>;

/// The bytes that a header value holds.
pub uninterp spec fn value_bytes(v: HeaderValue) -> Seq<u8>;

/// The default headers that a client builder holds, as a header map's entries.
pub uninterp spec fn builder_headers(b: reqwest::ClientBuilder) -> Map<Seq<char>, Seq<u8>>;

/// The request timeout that a client builder holds, in seconds.
pub uninterp spec fn builder_timeout(b: reqwest::ClientBuilder) -> Option<u64>;

/// The headers that a client sends with every request, as a header map's
/// entries.
pub uninterp spec fn client_headers(c: reqwest::Client) -> Map<Seq<char>, Seq<u8>>;

/// The timeout that bounds each request of a client, in seconds.
pub uninterp spec fn client_timeout(c: reqwest::Client) -> Option<u64>;

/// The bytes of the text `*/*`.
pub open spec fn any_media() -> Seq<u8> {
    seq![42u8, 47u8, 42u8]
}

/// Relies on `str::trim_end`: the text without its trailing characters that
/// have the White_Space property.
#[verifier::external_body]
fn trim_trailing(s: &str) -> (r: String)
    ensures
        r@ == trimmed(s@),
{
    s.trim_end().to_string()
}

/// Relies on `HeaderValue::from_str` (http 0.2): it fails exactly when some
/// byte of the text is below 32 and not a tab, or is 127, and otherwise
/// holds the text's bytes.
#[verifier::external_body]
fn header_value(s: &str) -> (r: Result<HeaderValue, InvalidHeaderValue>)
    ensures
        r is Ok <==> header_text_ok(s@),
        r is Ok ==> value_bytes(r->Ok_0) == s.spec_bytes(),
{
    HeaderValue::from_str(s)
}

/// Relies on `HeaderMap::new` and `HeaderMap::insert` with a static name: a
/// fresh map holding the one header. Insertion panics only on a name outside
/// the token characters, which `requires` leaves out; one entry is far from
/// the map's size limit.
#[verifier::external_body]
fn single_header(name: &'static str, value: HeaderValue) -> (r: HeaderMap)
    requires
        0 < name@.len() <= 64,
        forall|i: int| 0 <= i < name@.len() ==> #[trigger] name_char_ok(name@[i]),
    ensures
        header_entries(r) == map![name@ => value_bytes(value)],
{
    let mut map = HeaderMap::new();
    map.insert(name, value);
    map
}

/// Relies on `reqwest::Client::builder`: a builder whose only default header
/// is `accept: */*`, with no request timeout.
#[verifier::external_body]
fn client_builder() -> (r: reqwest::ClientBuilder)
    ensures
        builder_headers(r) == map!["accept"@ => any_media()],
        builder_timeout(r) is None,
{
    reqwest::Client::builder()
}

/// Relies on `ClientBuilder::default_headers`: each entry of the map is
/// inserted into the builder's default headers. The sizes are bounded so
/// that the builder's map stays far below its size limit.
#[verifier::external_body]
fn with_default_headers(b: reqwest::ClientBuilder, headers: HeaderMap) -> (r:
    reqwest::ClientBuilder)
    requires
        header_entries(headers).dom().finite(),
        header_entries(headers).dom().len() <= 64,
        builder_headers(b).dom().finite(),
        builder_headers(b).dom().len() <= 64,
    ensures
        builder_headers(r) == builder_headers(b).union_prefer_right(header_entries(headers)),
        builder_timeout(r) == builder_timeout(b),
{
    b.default_headers(headers)
}

/// Relies on `ClientBuilder::timeout`: every request is bounded by this many
/// seconds in all.
#[verifier::external_body]
fn with_timeout(b: reqwest::ClientBuilder, secs: u64) -> (r: reqwest::ClientBuilder)
    ensures
        builder_timeout(r) == Some(secs),
        builder_headers(r) == builder_headers(b),
{
    b.timeout(std::time::Duration::from_secs(secs))
}

/// Relies on `ClientBuilder::build`: a built client sends the builder's
/// default headers and keeps its timeout. Whether the build succeeds depends
/// on the host's TLS setup, so that is not promised.
#[verifier::external_body]
fn build_client(b: reqwest::ClientBuilder) -> (r: Result<reqwest::Client, reqwest::Error>)
    ensures
        r is Ok ==> client_headers(r->Ok_0) == builder_headers(b) && client_timeout(r->Ok_0)
            == builder_timeout(b),
{
    b.build()
}

/// The text of the error for a token that is no valid header value. It is
/// fixed: the token itself is never echoed.
pub const BAD_TOKEN: &'static str = "the auth token is not a valid header value";

/// The text of the error for a client that could not be built. It is fixed
/// too: what the client library reports is not passed on, so no text that
/// might hold the token reaches the caller.
pub const BUILD_FAILED: &'static str = "the HTTP client could not be set up";

/// An error whose text is one of the two fixed texts.
pub open spec fn fixed_text(e: ControllerError) -> bool {
    e is Config && (e->Config_0@ == BAD_TOKEN@ || e->Config_0@ == BUILD_FAILED@)
}

/// The error that rejects a token.
pub open spec fn is_token_error(r: Result<reqwest::Client, ControllerError>) -> bool {
    r is Err && r->Err_0 is Config && r->Err_0->Config_0@ == BAD_TOKEN@
}

/// A client that sends `token` in the auth header and bounds each request
/// by the fixed timeout.
pub open spec fn carries_token(c: reqwest::Client, token: Seq<u8>) -> bool {
    &&& client_headers(c).contains_key(AUTH_HEADER@)
    &&& client_headers(c)[AUTH_HEADER@] == token
    &&& client_timeout(c) == Some(REQUEST_TIMEOUT_SECS)
}

/// Builds the transport for a token that is used as it stands: every
/// request carries it in the auth header and is bounded by the timeout. A
/// token that is not a valid header value is rejected with a fixed text; a
/// failed client build is a configuration error of another text.
pub fn auth_client(token: &str) -> (r: Result<reqwest::Client, ControllerError>)
    ensures
        is_token_error(r) <==> !header_text_ok(token@),
        r is Err ==> fixed_text(r->Err_0),
        r is Ok ==> carries_token(r->Ok_0, token.spec_bytes()),
{
    proof {
        reveal_strlit("the auth token is not a valid header value");
        reveal_strlit("the HTTP client could not be set up");
        reveal_strlit("x-zt1-auth");
        reveal_strlit("accept");
    }
    let value = match header_value(token) {
        Ok(v) => v,
        Err(_) => {
            return Err(ControllerError::Config(String::from_str(BAD_TOKEN)));
        },
    };
    let headers = single_header(AUTH_HEADER, value);
    let base = client_builder();
    proof {
        assert(AUTH_HEADER@ != "accept"@) by {
            assert(AUTH_HEADER@[0] != "accept"@[0]);
        }
    }
    let builder = with_timeout(with_default_headers(base, headers), REQUEST_TIMEOUT_SECS);
    match build_client(builder) {
        Ok(c) => Ok(c),
        Err(_) => {
            let msg = String::from_str(BUILD_FAILED);
            proof {
                assert(msg@[4] != BAD_TOKEN@[4]);
            }
            Err(ControllerError::Config(msg))
        },
    }
}

/// Builds the transport from the text of a token file: trailing whitespace
/// is removed, and exactly the rest, as UTF-8, is sent as the auth header.
/// Every error text is fixed and never holds the token.
pub fn local_client(authtoken: String) -> (r: Result<reqwest::Client, ControllerError>)
    ensures
        is_token_error(r) <==> !header_text_ok(trimmed(authtoken@)),
        r is Err ==> fixed_text(r->Err_0),
        r is Ok ==> carries_token(r->Ok_0, encode_utf8(trimmed(authtoken@))),
{
    let token = trim_trailing(authtoken.as_str());
    auth_client(token.as_str())
}

} // verus!
