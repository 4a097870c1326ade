//! The transport library's types and calls, with what is taken on trust of
//! them. Nothing here is proved: each contract restates what the transport
//! library's source shows. A builder is known by the headers, the identity
//! and the roots that it holds, and a client by those that it was built
//! with.

use reqwest::header::{HeaderMap, HeaderValue, InvalidHeaderValue};
use reqwest::{Certificate, Client, ClientBuilder, Identity, RequestBuilder};
use vstd::prelude::*;
use vstd::string::*;

verus! {

/// `reqwest::Client`, opaque.
#[verifier::external_type_specification]
#[verifier::external_body]
pub struct ExClient(Client);

/// `reqwest::ClientBuilder`, opaque.
#[verifier::external_type_specification]
#[verifier::external_body]
pub struct ExClientBuilder(ClientBuilder);

/// `reqwest::Identity`, opaque.
#[verifier::external_type_specification]
#[verifier::external_body]
pub struct ExIdentity(Identity);

/// `reqwest::Certificate`, opaque.
#[verifier::external_type_specification]
#[verifier::external_body]
pub struct ExCertificate(Certificate);

/// `reqwest::RequestBuilder`, opaque.
#[verifier::external_type_specification]
#[verifier::external_body]
pub struct ExRequestBuilder(RequestBuilder);

/// `reqwest::header::HeaderMap`, known by [`header_entries`] alone.
#[verifier::external_type_specification]
#[verifier::external_body]
#[verifier::reject_recursive_types(T)]
pub struct ExHeaderMap<T>(HeaderMap<T>);

/// `reqwest::header::HeaderValue`, known by [`header_value_bytes`] alone.
#[verifier::external_type_specification]
#[verifier::external_body]
pub struct ExHeaderValue(HeaderValue);

/// `reqwest::header::InvalidHeaderValue`, opaque.
#[verifier::external_type_specification]
#[verifier::external_body]
pub struct ExInvalidHeaderValue(InvalidHeaderValue);

/// The bytes that a header value holds.
pub uninterp spec fn header_value_bytes(value: HeaderValue) -> Seq<u8>;

/// What a header map holds: for each header name in it, in lower case, the
/// bytes of the last value under that name.
pub uninterp spec fn header_entries(headers: HeaderMap<HeaderValue>) -> Map<Seq<char>, Seq<u8>>;

/// The default headers that a client builder holds, as [`header_entries`]
/// gives those of a header map.
pub uninterp spec fn builder_headers(builder: ClientBuilder) -> Map<Seq<char>, Seq<u8>>;

/// The client identity that a client builder holds, if one was set.
pub uninterp spec fn builder_identity(builder: ClientBuilder) -> Option<Identity>;

/// The root certificates that were added to a client builder, in the order
/// in which they were added.
pub uninterp spec fn builder_roots(builder: ClientBuilder) -> Seq<Certificate>;

/// The default headers that a client holds: those of the builder that built
/// it.
pub uninterp spec fn client_headers(client: Client) -> Map<Seq<char>, Seq<u8>>;

/// The client identity that the builder of a client held when it built it.
pub uninterp spec fn client_identity(client: Client) -> Option<Identity>;

/// The root certificates that the builder of a client held when it built it.
pub uninterp spec fn client_roots(client: Client) -> Seq<Certificate>;

/// The header map with nothing in it.
pub open spec fn no_headers() -> Map<Seq<char>, Seq<u8>> {
    Map::empty()
}

/// The header map that holds one value, under `authorization`.
pub open spec fn authorization_only(value: Seq<u8>) -> Map<Seq<char>, Seq<u8>> {
    no_headers().insert("authorization"@, value)
}

/// The bytes of `*/*`, the value that a new client builder holds under
/// `accept`.
pub open spec fn accept_anything() -> Seq<u8> {
    seq![42u8, 47u8, 42u8]
}

/// The default headers of a new client builder: `accept: */*`.
pub open spec fn fresh_headers() -> Map<Seq<char>, Seq<u8>> {
    no_headers().insert("accept"@, accept_anything())
}

/// Whether a header map holds no name but `authorization`.
pub open spec fn only_authorization(entries: Map<Seq<char>, Seq<u8>>) -> bool {
    forall|name: Seq<char>| entries.contains_key(name) ==> name == "authorization"@
}

/// What `reqwest::Identity::from_pem` returns for these bytes.
pub uninterp spec fn identity_from_pem(pem: Seq<u8>) -> Result<Identity, reqwest::Error>;

/// What `reqwest::Certificate::from_pem_bundle` returns for these bytes: the
/// certificates found in them, in their order.
pub uninterp spec fn certificates_from_pem(pem: Seq<u8>) -> Result<
    Seq<Certificate>,
    reqwest::Error,
>;

/// A parsed bundle with the certificates as a sequence.
pub open spec fn bundle_view(parsed: Result<Vec<Certificate>, reqwest::Error>) -> Result<
    Seq<Certificate>,
    reqwest::Error,
> {
    match parsed {
        Ok(certificates) => Ok(certificates@),
        Err(refusal) => Err(refusal),
    }
}

/// A byte that may stand in a header value: anything from the space up but
/// DEL, and the tab.
pub open spec fn header_byte_allowed(b: u8) -> bool {
    b >= 32 && b != 127 || b == 9
}

/// Whether every byte may stand in a header value.
pub open spec fn header_bytes_allowed(bytes: Seq<u8>) -> bool {
    forall|i: int| 0 <= i < bytes.len() ==> header_byte_allowed(#[trigger] bytes[i])
}

/// Calls `HeaderValue::from_str`.
///
/// Trusted: it succeeds exactly when every byte of the text is allowed, and
/// the value then holds the text's bytes.
#[verifier::external_body]
pub(crate) fn header_value(text: &str) -> (res: Result<HeaderValue, InvalidHeaderValue>)
    ensures
        res is Ok <==> header_bytes_allowed(text.spec_bytes()),
        res matches Ok(value) ==> header_value_bytes(value) == text.spec_bytes(),
{
    HeaderValue::from_str(text)
}

/// `HeaderMap::new`. Trusted: the new map is empty.
pub assume_specification[ HeaderMap::<HeaderValue>::new ]() -> (headers: HeaderMap<HeaderValue>)
    ensures
        header_entries(headers) == no_headers(),
;

/// Calls `HeaderMap::insert` with the `AUTHORIZATION` header name.
///
/// Trusted: the map, which was empty, then holds the value under
/// `authorization` and nothing else. (On a map that is full the call panics,
/// so only an empty map is admitted.)
#[verifier::external_body]
pub(crate) fn insert_authorization(headers: &mut HeaderMap<HeaderValue>, value: HeaderValue)
    requires
        header_entries(*old(headers)) == no_headers(),
    ensures
        header_entries(*final(headers)) == authorization_only(header_value_bytes(value)),
{
    headers.insert(reqwest::header::AUTHORIZATION, value);
}

/// `Identity::from_pem`. Trusted: the result, identity or refusal, is a
/// function of the bytes alone.
pub assume_specification[ Identity::from_pem ](buf: &[u8]) -> (res: Result<
    Identity,
    reqwest::Error,
>)
    ensures
        res == identity_from_pem(buf@),
;

/// `Certificate::from_pem_bundle`, which parses the PEM at once. Trusted: the
/// result, certificates or refusal, is a function of the bytes alone.
pub assume_specification[ Certificate::from_pem_bundle ](pem_bundle: &[u8]) -> (res: Result<
    Vec<Certificate>,
    reqwest::Error,
>)
    ensures
        bundle_view(res) == certificates_from_pem(pem_bundle@),
;

/// `Client::builder`. Trusted: the new builder holds the one default header
/// `accept: */*`, no identity and no added root certificate.
pub assume_specification[ Client::builder ]() -> (builder: ClientBuilder)
    ensures
        builder_headers(builder) == fresh_headers(),
        builder_identity(builder) is None,
        builder_roots(builder) == Seq::<Certificate>::empty(),
;

/// `ClientBuilder::use_rustls_tls`. Trusted: headers, identity and roots stay
/// as they are.
pub assume_specification[ ClientBuilder::use_rustls_tls ](builder: ClientBuilder) -> (res:
    ClientBuilder)
    ensures
        builder_headers(res) == builder_headers(builder),
        builder_identity(res) == builder_identity(builder),
        builder_roots(res) == builder_roots(builder),
;

/// `ClientBuilder::default_headers`. Trusted: each header of the map is set
/// in the builder, in place of what it held under that name; identity and
/// roots stay as they are. (The call panics where the builder's map would
/// outgrow its limit, so only a builder with its first headers and a map
/// with no name but `authorization` are admitted.)
pub assume_specification[ ClientBuilder::default_headers ](
    builder: ClientBuilder,
    headers: HeaderMap<HeaderValue>,
) -> (res: ClientBuilder)
    requires
        builder_headers(builder) == fresh_headers(),
        only_authorization(header_entries(headers)),
    ensures
        builder_headers(res) == builder_headers(builder).union_prefer_right(
            header_entries(headers),
        ),
        builder_identity(res) == builder_identity(builder),
        builder_roots(res) == builder_roots(builder),
;

/// `ClientBuilder::identity`. Trusted: the builder then holds this identity;
/// headers and roots stay as they are.
pub assume_specification[ ClientBuilder::identity ](
    builder: ClientBuilder,
    identity: Identity,
) -> (res: ClientBuilder)
    ensures
        builder_identity(res) == Some(identity),
        builder_headers(res) == builder_headers(builder),
        builder_roots(res) == builder_roots(builder),
;

/// `ClientBuilder::add_root_certificate`. Trusted: the certificate is added
/// after the roots that the builder held; headers and identity stay as they
/// are.
pub assume_specification[ ClientBuilder::add_root_certificate ](
    builder: ClientBuilder,
    cert: Certificate,
) -> (res: ClientBuilder)
    ensures
        builder_roots(res) == builder_roots(builder).push(cert),
        builder_headers(res) == builder_headers(builder),
        builder_identity(res) == builder_identity(builder),
;

/// `ClientBuilder::build`. Whether it succeeds depends on the machine, so
/// nothing is claimed of that. Trusted: a client that it builds holds the
/// builder's default headers, and its identity and roots are those that the
/// builder held.
pub assume_specification[ ClientBuilder::build ](builder: ClientBuilder) -> (res: Result<
    Client,
    reqwest::Error,
>)
    ensures
        res matches Ok(client) ==> client_headers(client) == builder_headers(builder),
        res matches Ok(client) ==> client_identity(client) == builder_identity(builder),
        res matches Ok(client) ==> client_roots(client) == builder_roots(builder),
;

/// What `reqwest::Client::get` returns for a client and a URL given as text:
/// the builder of that client's `GET` request to the URL.
pub uninterp spec fn get_request(client: Client, url: Seq<char>) -> RequestBuilder;

/// What `reqwest::Client::post` returns for a client and a URL given as text:
/// the builder of that client's `POST` request to the URL.
pub uninterp spec fn post_request(client: Client, url: Seq<char>) -> RequestBuilder;

/// Calls `Client::get` with the URL as text.
///
/// Trusted: the request builder is a function of the client and the text
/// alone; it is made of a copy of the client and of the parsed URL, and
/// nothing is sent. A URL that does not parse is reported when the request
/// is sent.
#[verifier::external_body]
pub(crate) fn start_get(client: &Client, url: &str) -> (request: RequestBuilder)
    ensures
        request == get_request(*client, url@),
{
    client.get(url)
}

/// Calls `Client::post` with the URL as text.
///
/// Trusted: the request builder is a function of the client and the text
/// alone; it is made of a copy of the client and of the parsed URL, and
/// nothing is sent. A URL that does not parse is reported when the request
/// is sent.
#[verifier::external_body]
pub(crate) fn start_post(client: &Client, url: &str) -> (request: RequestBuilder)
    ensures
        request == post_request(*client, url@),
{
    client.post(url)
}

} // verus!
