//! The client for one resolved context: where the server is, which namespace
//! is in force, and the transport client set up for the credential.

use crate::auth::{Auth, AuthView};
use crate::config::ResolvedContext;
use crate::error::KubeError;
use crate::transport::{
    builder_headers, builder_identity, builder_roots, client_headers, client_identity,
    client_roots, fresh_headers, get_request, post_request, start_get, start_post,
};
use reqwest::{Certificate, Client, ClientBuilder, RequestBuilder};
use vstd::prelude::*;
use vstd::string::*;

verus! {

/// The text without the run of `c` at its end.
pub open spec fn without_trailing(text: Seq<char>, c: char) -> Seq<char>
    decreases text.len(),
{
    if text.len() > 0 && text.last() == c {
        without_trailing(text.drop_last(), c)
    } else {
        text
    }
}

/// The text without the run of `c` at its start.
pub open spec fn without_leading(text: Seq<char>, c: char) -> Seq<char>
    decreases text.len(),
{
    if text.len() > 0 && text.first() == c {
        without_leading(text.drop_first(), c)
    } else {
        text
    }
}

/// The URL of a path under a server: the two joined by one slash, whatever
/// slashes the path began with.
pub open spec fn joined(server: Seq<char>, path: Seq<char>) -> Seq<char> {
    server + "/"@ + without_leading(path, '/')
}

/// What is left of a text once its trailing run of `c` has been cut is a
/// prefix of it that does not end in `c`, followed by nothing but `c`.
pub proof fn lemma_without_trailing(text: Seq<char>, c: char)
    ensures
        without_trailing(text, c).len() <= text.len(),
        without_trailing(text, c) == text.subrange(0, without_trailing(text, c).len() as int),
        without_trailing(text, c).len() > 0 ==> without_trailing(text, c).last() != c,
        forall|i: int| without_trailing(text, c).len() <= i < text.len() ==> text[i] == c,
    decreases text.len(),
{
    if text.len() > 0 && text.last() == c {
        lemma_without_trailing(text.drop_last(), c);
        let kept = without_trailing(text.drop_last(), c);
        assert(kept == text.subrange(0, kept.len() as int));
        assert forall|i: int| kept.len() <= i < text.len() implies text[i] == c by {
            if i < text.len() - 1 {
                assert(text[i] == text.drop_last()[i]);
            }
        }
    } else {
        assert(text == text.subrange(0, text.len() as int));
    }
}

/// What is left of a text once its leading run of `c` has been cut is a
/// suffix of it that does not begin with `c`, preceded by nothing but `c`.
pub proof fn lemma_without_leading(text: Seq<char>, c: char)
    ensures
        without_leading(text, c).len() <= text.len(),
        without_leading(text, c) == text.subrange(
            text.len() - without_leading(text, c).len(),
            text.len() as int,
        ),
        without_leading(text, c).len() > 0 ==> without_leading(text, c).first() != c,
        forall|i: int| 0 <= i < text.len() - without_leading(text, c).len() ==> text[i] == c,
    decreases text.len(),
{
    if text.len() > 0 && text.first() == c {
        lemma_without_leading(text.drop_first(), c);
        let kept = without_leading(text.drop_first(), c);
        assert(kept == text.subrange(text.len() - kept.len(), text.len() as int));
        assert forall|i: int| 0 <= i < text.len() - kept.len() implies text[i] == c by {
            if i > 0 {
                assert(text[i] == text.drop_first()[i - 1]);
            }
        }
    } else {
        assert(text == text.subrange(0, text.len() as int));
    }
}

/// Cuts every `/` off the end of a text: the result is the longest prefix
/// that does not end in `/`.
pub fn strip_trailing_slashes(text: &str) -> (res: &str)
    ensures
        res@ == without_trailing(text@, '/'),
        res@.len() <= text@.len(),
        res@ == text@.subrange(0, res@.len() as int),
        res@.len() > 0 ==> res@.last() != '/',
        forall|i: int| res@.len() <= i < text@.len() ==> text@[i] == '/',
{
    proof {
        lemma_without_trailing(text@, '/');
    }
    let mut end = text.unicode_len();
    assert(text@.subrange(0, end as int) == text@);
    while end > 0 && text.get_char(end - 1) == '/'
        invariant
            end <= text@.len(),
            without_trailing(text@, '/') == without_trailing(text@.subrange(0, end as int), '/'),
        decreases end,
    {
        assert(text@.subrange(0, end as int).drop_last() == text@.subrange(0, end - 1));
        end -= 1;
    }
    text.substring_char(0, end)
}

/// Cuts every `/` off the start of a text: the result is the longest suffix
/// that does not begin with `/`.
pub fn strip_leading_slashes(text: &str) -> (res: &str)
    ensures
        res@ == without_leading(text@, '/'),
        res@.len() <= text@.len(),
        res@ == text@.subrange(text@.len() - res@.len(), text@.len() as int),
        res@.len() > 0 ==> res@.first() != '/',
        forall|i: int| 0 <= i < text@.len() - res@.len() ==> text@[i] == '/',
{
    proof {
        lemma_without_leading(text@, '/');
    }
    let len = text.unicode_len();
    let mut start: usize = 0;
    assert(text@.subrange(0, len as int) == text@);
    while start < len && text.get_char(start) == '/'
        invariant
            start <= len,
            len == text@.len(),
            without_leading(text@, '/') == without_leading(
                text@.subrange(start as int, len as int),
                '/',
            ),
        decreases len - start,
    {
        assert(text@.subrange(start as int, len as int).drop_first() == text@.subrange(
            start + 1,
            len as int,
        ));
        start += 1;
    }
    text.substring_char(start, len)
}

/// Adds certificates to a builder's roots, each in its turn; the builder's
/// headers and identity stay as they are.
pub fn with_roots(builder: ClientBuilder, certificates: Vec<Certificate>) -> (res: ClientBuilder)
    ensures
        builder_roots(res) == builder_roots(builder) + certificates@,
        builder_headers(res) == builder_headers(builder),
        builder_identity(res) == builder_identity(builder),
{
    let mut extended = builder;
    let mut rest = certificates;
    while rest.len() > 0
        invariant
            builder_roots(extended) + rest@ == builder_roots(builder) + certificates@,
            builder_headers(extended) == builder_headers(builder),
            builder_identity(extended) == builder_identity(builder),
        decreases rest.len(),
    {
        let ghost before = rest@;
        let ghost held = builder_roots(extended);
        let next = rest.remove(0);
        extended = extended.add_root_certificate(next);
        assert(held.push(next) + before.remove(0) == held + before);
    }
    assert(builder_roots(extended) + rest@ == builder_roots(extended));
    extended
}

/// A client for one resolved context. Read-only once built.
pub struct KubernetesClient {
    server: String,
    namespace: String,
    auth: Auth,
    client: Client,
}

/// What a [`KubernetesClient`] holds beside the transport client.
pub struct KubernetesClientView {
    /// The server's URL, without trailing slashes.
    pub server: Seq<char>,
    pub namespace: Seq<char>,
    /// A copy of the credential that the client was set up for.
    pub auth: AuthView,
}

impl View for KubernetesClient {
    type V = KubernetesClientView;

    closed spec fn view(&self) -> KubernetesClientView {
        KubernetesClientView {
            server: self.server@,
            namespace: self.namespace@,
            auth: self.auth@,
        }
    }
}

impl KubernetesClient {
    /// The transport client held.
    pub closed spec fn transport(&self) -> Client {
        self.client
    }

    /// What a client for the context holds: the cluster's server without
    /// trailing slashes, the namespace in force and the credential.
    pub open spec fn expected(context: &ResolvedContext) -> KubernetesClientView {
        KubernetesClientView {
            server: without_trailing(context.cluster.server@, '/'),
            namespace: context.namespace@,
            auth: context.auth@,
        }
    }

    /// Whether nothing in the context is refused before the transport client
    /// is built: the token can stand in a header, and the transport library
    /// accepts the identity and the certificate authority.
    pub open spec fn admissible(context: &ResolvedContext) -> bool {
        &&& context.auth.header_accepted()
        &&& context.auth.identity_accepted()
        &&& context.cluster.trust_accepted()
    }

    /// The client for a context, given the transport library's answer to the
    /// build: the client around what it built, or its refusal as
    /// `ReqwestInit`.
    pub fn from_built(context: &ResolvedContext, built: Result<Client, reqwest::Error>) -> (res:
        Result<KubernetesClient, KubeError>)
        ensures
            match built {
                Ok(client) => res matches Ok(made) && made@ == Self::expected(context)
                    && made.transport() == client,
                Err(source) => res == Err::<KubernetesClient, KubeError>(
                    KubeError::ReqwestInit { source },
                ),
            },
    {
        match built {
            Ok(client) => Ok(
                KubernetesClient {
                    server: strip_trailing_slashes(context.cluster.server.as_str()).to_owned(),
                    namespace: context.namespace.to_owned(),
                    auth: context.auth.clone(),
                    client,
                },
            ),
            Err(source) => Err(KubeError::ReqwestInit { source }),
        }
    }

    /// Whether a transport client is set up as the context asks: its default
    /// headers are those of a new builder with the credential's header in
    /// place, its identity is the credential's, and its roots are the
    /// cluster's.
    pub open spec fn set_up_for(client: Client, context: &ResolvedContext) -> bool {
        &&& client_headers(client) == fresh_headers().union_prefer_right(
            context.auth.spec_headers(),
        )
        &&& context.auth.spec_identity() == Ok::<Option<reqwest::Identity>, KubeError>(
            client_identity(client),
        )
        &&& client_roots(client) == context.cluster.spec_roots()
    }

    /// Sets up a client for a resolved context.
    ///
    /// The steps, and the failure of each: the bearer token, if the
    /// credential is one, becomes the `Authorization` default header
    /// (`InvalidAuthHeader`); certificate and key, if the credential is such
    /// a pair, become the client identity (`InvalidIdentity`); the
    /// certificates of the cluster's certificate authority, if it declares
    /// one, become trusted roots (`InvalidCertificate`, with the field's
    /// name); then the transport client is built (`ReqwestInit`). The first
    /// failure is the one reported. Whether the build itself succeeds is the
    /// transport library's to say; [`KubernetesClient::from_built`] states
    /// what is returned for either answer. A client that is returned was
    /// built with exactly these headers, this identity and these roots.
    ///
    /// A user name and password, or no credential, set up nothing: the
    /// client is then built without credential material.
    pub fn new(context: &ResolvedContext) -> (res: Result<KubernetesClient, KubeError>)
        ensures
            match res {
                Ok(made) => Self::admissible(context) && made@ == Self::expected(context)
                    && Self::set_up_for(made.transport(), context),
                Err(KubeError::InvalidAuthHeader { .. }) => !context.auth.header_accepted(),
                Err(KubeError::InvalidIdentity { .. }) => context.auth.header_accepted()
                    && !context.auth.identity_accepted(),
                Err(KubeError::InvalidCertificate { context: field, .. }) => {
                    &&& context.auth.header_accepted()
                    &&& context.auth.identity_accepted()
                    &&& !context.cluster.trust_accepted()
                    &&& field@ == context.cluster.certificate_authority->0.spec_field()
                },
                Err(KubeError::ReqwestInit { .. }) => Self::admissible(context),
                Err(_) => false,
            },
    {
        let mut builder = Client::builder().use_rustls_tls();
        match context.auth.default_headers() {
            Ok(headers) => {
                builder = builder.default_headers(headers);
            },
            Err(failure) => {
                return Err(failure);
            },
        }
        match context.auth.identity() {
            Ok(Some(identity)) => {
                builder = builder.identity(identity);
            },
            Ok(None) => {},
            Err(failure) => {
                return Err(failure);
            },
        }
        match context.cluster.root_certificates() {
            Ok(certificates) => {
                builder = with_roots(builder, certificates);
            },
            Err(failure) => {
                return Err(failure);
            },
        }
        KubernetesClient::from_built(context, builder.build())
    }

    /// The server's URL, without trailing slashes.
    pub fn server(&self) -> (res: &str)
        ensures
            res@ == self@.server,
    {
        self.server.as_str()
    }

    /// The namespace in force.
    pub fn namespace(&self) -> (res: &str)
        ensures
            res@ == self@.namespace,
    {
        self.namespace.as_str()
    }

    /// The credential that the client was set up for.
    pub fn auth(&self) -> (res: &Auth)
        ensures
            res@ == self@.auth,
    {
        &self.auth
    }

    /// The URL that a request for `path` goes to: the server and the path,
    /// joined by one slash.
    pub fn url(&self, path: &str) -> (res: String)
        ensures
            res@ == joined(self@.server, path@),
    {
        let mut url = self.server.clone();
        url.append("/");
        url.append(strip_leading_slashes(path));
        url
    }

    /// Starts a `GET` request for a path under the server: the request that
    /// the transport client held starts for [`KubernetesClient::url`] of the
    /// path. Nothing is sent.
    pub fn get(&self, path: &str) -> (request: RequestBuilder)
        ensures
            request == get_request(self.transport(), joined(self@.server, path@)),
    {
        let url = self.url(path);
        start_get(&self.client, url.as_str())
    }

    /// Starts a `POST` request for a path under the server: the request that
    /// the transport client held starts for [`KubernetesClient::url`] of the
    /// path. Nothing is sent.
    pub fn post(&self, path: &str) -> (request: RequestBuilder)
        ensures
            request == post_request(self.transport(), joined(self@.server, path@)),
    {
        let url = self.url(path);
        start_post(&self.client, url.as_str())
    }
}

} // verus!
