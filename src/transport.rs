//! The HTTP transport library as this crate relies on it: its types, and one
//! small function per call that the client logic makes into it.

use std::time::Duration;

use vstd::prelude::*;

use reqwest::header::{HeaderMap, HeaderName, HeaderValue, InvalidHeaderValue};
use reqwest::{Client as HttpClient, ClientBuilder, Error as TransportError};

verus! {

#[verifier::external_type_specification]
#[verifier::external_body]
pub struct ExHeaderValue(HeaderValue);

#[verifier::external_type_specification]
#[verifier::external_body]
pub struct ExInvalidHeaderValue(InvalidHeaderValue);

#[verifier::external_type_specification]
#[verifier::external_body]
pub struct ExHeaderName(HeaderName);

#[verifier::external_type_specification]
#[verifier::external_body]
#[verifier::reject_recursive_types(T)]
pub struct ExHeaderMap<T>(HeaderMap<T>);

#[verifier::external_type_specification]
#[verifier::external_body]
pub struct ExHttpClient(HttpClient);

#[verifier::external_type_specification]
#[verifier::external_body]
pub struct ExClientBuilder(ClientBuilder);

#[verifier::external_type_specification]
#[verifier::external_body]
pub struct ExTransportError(TransportError);

/// A byte that may stand in an HTTP header value: a tab, or any byte from the
/// space upwards except DEL.
pub open spec fn is_header_value_byte(b: u8) -> bool {
    (b >= 32 && b != 127) || b == 9
}

/// Every byte of `s` may stand in an HTTP header value.
pub open spec fn is_header_safe(s: Seq<u8>) -> bool {
    forall|i: int| 0 <= i < s.len() ==> is_header_value_byte(#[trigger] s[i])
}

/// The bytes of an `accept` header that takes any media type: `*/*`.
pub open spec fn accept_any() -> Seq<u8> {
    seq![42u8, 47u8, 42u8]
}

/// A header value, with the bytes it holds.
pub struct HeaderBytes {
    pub(crate) value: HeaderValue,
    pub(crate) bytes: Ghost<Seq<u8>>,
}

/// A header name, with its text in lower case.
pub struct NamedHeader {
    pub(crate) name: HeaderName,
    pub(crate) text: Ghost<Seq<char>>,
}

/// A header map, with its entries: each name's text to the bytes of its value.
pub struct Headers {
    pub(crate) map: HeaderMap,
    pub(crate) entries: Ghost<Map<Seq<char>, Seq<u8>>>,
}

/// A transport under construction, with the default headers and the
/// request timeout (in milliseconds) that it has been given so far.
pub struct TransportBuilder {
    pub(crate) builder: ClientBuilder,
    pub(crate) default_headers: Ghost<Map<Seq<char>, Seq<u8>>>,
    pub(crate) timeout_ms: Ghost<Option<u64>>,
}

/// A built transport, with the default headers sent on every request and the
/// bound (in milliseconds) on each request.
pub struct Transport {
    pub(crate) client: HttpClient,
    pub(crate) default_headers: Ghost<Map<Seq<char>, Seq<u8>>>,
    pub(crate) timeout_ms: Ghost<Option<u64>>,
}

/// Relies on `HeaderValue::from_bytes`: it fails exactly when a byte of the
/// input is not allowed in a header value, and the value holds the input.
#[verifier::external_body]
pub(crate) fn header_value_from_bytes(b: &[u8]) -> (r: Result<HeaderBytes, InvalidHeaderValue>)
    ensures
        r is Ok <==> is_header_safe(b@),
        r matches Ok(v) ==> v.bytes@ == b@,
{
    HeaderValue::from_bytes(b).map(|value| HeaderBytes { value, bytes: Ghost(b@) })
}

/// Relies on the `Display` of `InvalidHeaderValue`, which writes a fixed text.
#[verifier::external_body]
pub(crate) fn invalid_header_value_text(e: &InvalidHeaderValue) -> (r: String)
    ensures
        r@ == "failed to parse header value"@,
{
    e.to_string()
}

/// Relies on `reqwest::header::USER_AGENT`, the header named `user-agent`.
#[verifier::external_body]
pub(crate) fn user_agent_header_name() -> (r: NamedHeader)
    ensures
        r.text@ == "user-agent"@,
{
    NamedHeader { name: reqwest::header::USER_AGENT, text: Ghost("user-agent"@) }
}

/// Relies on `HeaderMap`'s `FromIterator`: a map that holds the one given entry.
#[verifier::external_body]
pub(crate) fn header_map_of(name: NamedHeader, value: HeaderBytes) -> (r: Headers)
    ensures
        r.entries@ == map![name.text@ => value.bytes@],
{
    Headers {
        map: HeaderMap::from_iter([(name.name, value.value)]),
        entries: Ghost(map![name.text@ => value.bytes@]),
    }
}

/// Relies on `reqwest::Client::builder`: a builder whose only default header
/// is `accept: */*`, and under which requests have no timeout.
#[verifier::external_body]
pub(crate) fn client_builder() -> (r: TransportBuilder)
    ensures
        r.default_headers@ == map!["accept"@ => accept_any()],
        r.timeout_ms@ == None::<u64>,
{
    TransportBuilder {
        builder: HttpClient::builder(),
        default_headers: Ghost(map!["accept"@ => accept_any()]),
        timeout_ms: Ghost(None),
    }
}

/// Relies on `ClientBuilder::timeout`: every request gets the given bound.
#[verifier::external_body]
pub(crate) fn builder_timeout(b: TransportBuilder, millis: u64) -> (r: TransportBuilder)
    ensures
        r.default_headers@ == b.default_headers@,
        r.timeout_ms@ == Some(millis),
{
    TransportBuilder {
        builder: b.builder.timeout(Duration::from_millis(millis)),
        default_headers: b.default_headers,
        timeout_ms: Ghost(Some(millis)),
    }
}

/// Relies on `ClientBuilder::default_headers`: each given header is added to
/// the default ones, in place of a default of the same name.
#[verifier::external_body]
pub(crate) fn builder_default_headers(b: TransportBuilder, headers: Headers) -> (r: TransportBuilder)
    ensures
        r.default_headers@ == b.default_headers@.union_prefer_right(headers.entries@),
        r.timeout_ms@ == b.timeout_ms@,
{
    TransportBuilder {
        builder: b.builder.default_headers(headers.map),
        default_headers: Ghost(b.default_headers@.union_prefer_right(headers.entries@)),
        timeout_ms: b.timeout_ms,
    }
}

/// Relies on `ClientBuilder::build`: the transport keeps the builder's default
/// headers and timeout, or the error that kept it from being built.
#[verifier::external_body]
pub(crate) fn builder_build(b: TransportBuilder) -> (r: Result<Transport, TransportError>)
    ensures
        r matches Ok(t) ==> t.default_headers@ == b.default_headers@ && t.timeout_ms@
            == b.timeout_ms@,
{
    let TransportBuilder { builder, default_headers, timeout_ms } = b;
    builder.build().map(|client| Transport { client, default_headers, timeout_ms })
}

/// Relies on the `Display` of `reqwest::Error`: a description of the failure.
#[verifier::external_body]
pub(crate) fn transport_error_text(e: &TransportError) -> String {
    e.to_string()
}

} // verus!
