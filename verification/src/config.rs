//! The configuration document: named clusters, users and contexts, and the
//! resolution of the current context into one cluster and one credential.

use crate::auth::Auth;
use crate::bytes::Bytes;
use crate::error::KubeError;
use crate::transport::{bundle_view, certificates_from_pem};
use reqwest::Certificate;
use std::collections::HashMap;
use vstd::prelude::*;
use vstd::string::*;

verus! {

/// `serde_json::Value`, carried through and never looked into.
#[verifier::external_type_specification]
#[verifier::external_body]
pub struct ExJsonValue(serde_json::Value);

/// The trust root of a cluster, by where the document took it from.
pub enum ClusterCertificateAuthority {
    /// Read from the file that `certificate-authority` named.
    File { certificate: Bytes },
    /// Decoded from the base64 text under `certificate-authority-data`.
    Embedded { certificate: Bytes },
}

/// A server endpoint and how to trust it.
pub struct Cluster {
    /// The server's URL, as the document has it.
    pub server: String,
    pub insecure_skip_tls_verify: bool,
    pub certificate_authority: Option<ClusterCertificateAuthority>,
}

pub struct ClusterContainer {
    pub name: String,
    pub cluster: Cluster,
}

/// The binding of one cluster to one user, both by name.
pub struct Context {
    pub cluster: String,
    pub namespace: Option<String>,
    pub user: String,
}

pub struct ContextContainer {
    pub name: String,
    pub context: Context,
}

pub struct User {
    pub auth: Auth,
}

pub struct UserContainer {
    pub name: String,
    pub user: User,
}

/// One context, resolved: its cluster, its credential and the namespace in
/// force. It borrows from the document and owns nothing.
pub struct ResolvedContext<'a> {
    pub namespace: &'a str,
    pub auth: &'a Auth,
    pub cluster: &'a Cluster,
}

/// The whole document.
pub struct KubernetesConfig {
    pub api_version: String,
    pub kind: String,
    pub clusters: Vec<ClusterContainer>,
    pub contexts: Vec<ContextContainer>,
    pub users: Vec<UserContainer>,
    pub current_context: Option<String>,
    /// Passed through, never validated.
    pub preferences: HashMap<String, serde_json::Value>,
}

/// Whether TLS verification is skipped for a cluster that does not say: it
/// is not.
pub fn default_skip_tls_verify() -> (skip: bool)
    ensures
        !skip,
{
    false
}

impl Default for User {
    /// A user entry without credential fields has no credential.
    fn default() -> (res: User)
        ensures
            res == (User { auth: Auth::Null {  } }),
    {
        User { auth: Auth::Null {  } }
    }
}

/// The field name of the embedded form of a certificate authority.
pub open spec fn embedded_authority_field() -> Seq<char> {
    "certificate-authority-data"@
}

/// The field name of the file form of a certificate authority.
pub open spec fn file_authority_field() -> Seq<char> {
    "certificate-authority"@
}

impl ClusterCertificateAuthority {
    /// The certificate's bytes, whichever the form.
    pub open spec fn spec_certificate(&self) -> Seq<u8> {
        match self {
            ClusterCertificateAuthority::File { certificate } => certificate@,
            ClusterCertificateAuthority::Embedded { certificate } => certificate@,
        }
    }

    /// The name of the document's field that this form comes from.
    pub open spec fn spec_field(&self) -> Seq<char> {
        match self {
            ClusterCertificateAuthority::File { .. } => file_authority_field(),
            ClusterCertificateAuthority::Embedded { .. } => embedded_authority_field(),
        }
    }

    /// The certificate's bytes, whichever the form.
    pub fn certificate(&self) -> (res: &Bytes)
        ensures
            res@ == self.spec_certificate(),
    {
        match self {
            ClusterCertificateAuthority::File { certificate } => certificate,
            ClusterCertificateAuthority::Embedded { certificate } => certificate,
        }
    }

    /// The name of the document's field that this form comes from:
    /// `certificate-authority` or `certificate-authority-data`.
    pub fn field(&self) -> (res: &'static str)
        ensures
            res@ == self.spec_field(),
    {
        match self {
            ClusterCertificateAuthority::File { .. } => "certificate-authority",
            ClusterCertificateAuthority::Embedded { .. } => "certificate-authority-data",
        }
    }

    /// What the transport library's answer on the certificate's bytes comes
    /// to: the certificates found, or `InvalidCertificate` with this form's
    /// field and the refusal.
    pub open spec fn spec_roots_result(
        &self,
        parsed: Result<Seq<Certificate>, reqwest::Error>,
        res: Result<Vec<Certificate>, KubeError>,
    ) -> bool {
        match parsed {
            Ok(certificates) => res matches Ok(found) && found@ == certificates,
            Err(refusal) => res matches Err(KubeError::InvalidCertificate { context, source })
                && context@ == self.spec_field() && source == refusal,
        }
    }

    /// What [`Cluster::root_certificates`] returns for this authority once
    /// the transport library has answered: its certificates, or its refusal
    /// as `InvalidCertificate`, with the field that the bytes came from.
    pub fn root_certificates_result(
        &self,
        parsed: Result<Vec<Certificate>, reqwest::Error>,
    ) -> (res: Result<Vec<Certificate>, KubeError>)
        ensures
            self.spec_roots_result(bundle_view(parsed), res),
    {
        match parsed {
            Ok(certificates) => Ok(certificates),
            Err(source) => Err(
                KubeError::InvalidCertificate { context: String::from_str(self.field()), source },
            ),
        }
    }
}

impl Cluster {
    /// Whether the certificate authority, if one is declared, is accepted by
    /// the transport library.
    pub open spec fn trust_accepted(&self) -> bool {
        self.certificate_authority matches Some(authority) ==> certificates_from_pem(
            authority.spec_certificate(),
        ) is Ok
    }

    /// The trust roots that this cluster declares, where they are accepted:
    /// the certificates that the transport library finds in the authority's
    /// bytes, none where no authority is declared.
    pub open spec fn spec_roots(&self) -> Seq<Certificate> {
        match self.certificate_authority {
            Some(authority) => certificates_from_pem(authority.spec_certificate())->Ok_0,
            None => Seq::empty(),
        }
    }

    /// The trust roots that this cluster declares: none if it declares no
    /// authority; else the certificates that the transport library finds in
    /// the authority's bytes, which are parsed at once, or
    /// `InvalidCertificate` with its refusal and the name of the field that
    /// the bytes came from.
    pub fn root_certificates(&self) -> (res: Result<Vec<Certificate>, KubeError>)
        ensures
            match self.certificate_authority {
                None => res matches Ok(found) && found@ == Seq::<Certificate>::empty(),
                Some(authority) => authority.spec_roots_result(
                    certificates_from_pem(authority.spec_certificate()),
                    res,
                ),
            },
    {
        match &self.certificate_authority {
            None => Ok(Vec::new()),
            Some(authority) => authority.root_certificates_result(
                Certificate::from_pem_bundle(authority.certificate().as_slice()),
            ),
        }
    }
}

/// An entry of one of the document's three tables: it has a name.
pub trait Named {
    spec fn spec_name(&self) -> Seq<char>;

    fn name(&self) -> (res: &String)
        ensures
            res@ == self.spec_name(),
    ;
}

impl Named for ClusterContainer {
    open spec fn spec_name(&self) -> Seq<char> {
        self.name@
    }

    fn name(&self) -> (res: &String) {
        &self.name
    }
}

impl Named for ContextContainer {
    open spec fn spec_name(&self) -> Seq<char> {
        self.name@
    }

    fn name(&self) -> (res: &String) {
        &self.name
    }
}

impl Named for UserContainer {
    open spec fn spec_name(&self) -> Seq<char> {
        self.name@
    }

    fn name(&self) -> (res: &String) {
        &self.name
    }
}

/// The names of a table's entries, in the table's order.
pub open spec fn names_of<T: Named>(entries: Seq<T>) -> Seq<Seq<char>> {
    Seq::new(entries.len(), |i: int| entries[i].spec_name())
}

/// Whether some entry has the name.
pub open spec fn named(names: Seq<Seq<char>>, name: Seq<char>) -> bool {
    exists|i: int| 0 <= i < names.len() && names[i] == name
}

/// Whether `i` is the first entry with the name.
pub open spec fn is_first_named(names: Seq<Seq<char>>, name: Seq<char>, i: int) -> bool {
    &&& 0 <= i < names.len()
    &&& names[i] == name
    &&& forall|j: int| 0 <= j < i ==> names[j] != name
}

/// The first entry with the name, where there is one. Entries that repeat a
/// name are neither merged nor refused: the first one counts.
pub open spec fn first_named(names: Seq<Seq<char>>, name: Seq<char>) -> int {
    choose|i: int| is_first_named(names, name, i)
}

/// The namespace in force for a context: its own, or `default`.
pub open spec fn effective_namespace(namespace: Option<String>) -> Seq<char> {
    match namespace {
        Some(own) => own@,
        None => "default"@,
    }
}

/// Among the entries that carry a name, one is the first.
pub proof fn lemma_first_named_exists(names: Seq<Seq<char>>, name: Seq<char>)
    requires
        named(names, name),
    ensures
        is_first_named(names, name, first_named(names, name)),
{
    let found = choose|i: int| 0 <= i < names.len() && names[i] == name;
    lemma_first_up_to(names, name, found);
}

/// An entry with the name at `found` puts the first such entry at or before it.
proof fn lemma_first_up_to(names: Seq<Seq<char>>, name: Seq<char>, found: int)
    requires
        0 <= found < names.len(),
        names[found] == name,
    ensures
        exists|i: int| is_first_named(names, name, i),
    decreases found,
{
    if exists|j: int| 0 <= j < found && names[j] == name {
        let earlier = choose|j: int| 0 <= j < found && names[j] == name;
        lemma_first_up_to(names, name, earlier);
    } else {
        assert(is_first_named(names, name, found));
    }
}

/// Only one entry can be the first with a name.
pub proof fn lemma_first_named_unique(names: Seq<Seq<char>>, name: Seq<char>, i: int)
    requires
        is_first_named(names, name, i),
    ensures
        named(names, name),
        first_named(names, name) == i,
{
    let chosen = first_named(names, name);
    assert(is_first_named(names, name, chosen));
    if chosen < i {
        assert(names[chosen] != name);
    } else if i < chosen {
        assert(names[i] != name);
    }
}

/// The position of the first entry with the name, if any entry has it.
fn position<T: Named>(entries: &Vec<T>, name: &String) -> (res: Option<usize>)
    ensures
        match res {
            Some(i) => is_first_named(names_of(entries@), name@, i as int),
            None => !named(names_of(entries@), name@),
        },
{
    let mut i: usize = 0;
    while i < entries.len()
        invariant
            i <= entries.len(),
            forall|j: int| 0 <= j < i ==> names_of(entries@)[j] != name@,
        decreases entries.len() - i,
    {
        if *entries[i].name() == *name {
            return Some(i);
        }
        i += 1;
    }
    None
}

impl KubernetesConfig {
    /// The context that the document selects. Meaningful where a current
    /// context is set and an entry of that name exists.
    pub open spec fn selected_context(&self) -> Context {
        self.contexts@[first_named(
            names_of(self.contexts@),
            self.current_context->0@,
        )].context
    }

    /// The user that the selected context names.
    pub open spec fn selected_user(&self) -> User {
        self.users@[first_named(names_of(self.users@), self.selected_context().user@)].user
    }

    /// The cluster that the selected context names.
    pub open spec fn selected_cluster(&self) -> Cluster {
        self.clusters@[first_named(
            names_of(self.clusters@),
            self.selected_context().cluster@,
        )].cluster
    }

    /// Whether the document selects a context and every name on the way is
    /// found: the context's in the contexts, then its user's in the users and
    /// its cluster's in the clusters.
    pub open spec fn resolves(&self) -> bool {
        &&& self.current_context is Some
        &&& named(names_of(self.contexts@), self.current_context->0@)
        &&& named(names_of(self.users@), self.selected_context().user@)
        &&& named(names_of(self.clusters@), self.selected_context().cluster@)
    }

    /// Whether `found` is what resolving this document yields.
    pub open spec fn resolves_to(&self, found: Option<ResolvedContext>) -> bool {
        &&& found is Some <==> self.resolves()
        &&& found matches Some(resolved) ==> {
            &&& *resolved.auth == self.selected_user().auth
            &&& *resolved.cluster == self.selected_cluster()
            &&& resolved.namespace@ == effective_namespace(self.selected_context().namespace)
        }
    }

    /// Resolves the current context.
    ///
    /// There is a result exactly when the document names a current context,
    /// that context exists, and so do the user and the cluster that it names;
    /// a name that is not found is no failure, it yields `None`. The result
    /// borrows the credential and the cluster of the entries found, the first
    /// of each name, and its namespace is the context's, or `default`.
    pub fn current_context(&self) -> (res: Option<ResolvedContext<'_>>)
        ensures
            self.resolves_to(res),
    {
        let current = match &self.current_context {
            Some(current) => current,
            None => {
                return None;
            },
        };
        let context = match position(&self.contexts, current) {
            Some(i) => {
                proof {
                    lemma_first_named_unique(names_of(self.contexts@), current@, i as int);
                }
                &self.contexts[i].context
            },
            None => {
                return None;
            },
        };
        let auth = match position(&self.users, &context.user) {
            Some(i) => {
                proof {
                    lemma_first_named_unique(names_of(self.users@), context.user@, i as int);
                }
                &self.users[i].user.auth
            },
            None => {
                return None;
            },
        };
        let cluster = match position(&self.clusters, &context.cluster) {
            Some(i) => {
                proof {
                    lemma_first_named_unique(names_of(self.clusters@), context.cluster@, i as int);
                }
                &self.clusters[i].cluster
            },
            None => {
                return None;
            },
        };
        let namespace = match &context.namespace {
            Some(own) => own.as_str(),
            None => "default",
        };
        Some(ResolvedContext { namespace, auth, cluster })
    }
}

/// A document whose current context exists, and names a user and a cluster
/// that exist, resolves: to that user's credential, that cluster, and the
/// context's namespace if it has one, else `default`. Of entries that share a
/// name the first is meant.
pub proof fn lemma_complete_references_resolve(
    config: KubernetesConfig,
    found: Option<ResolvedContext>,
    context: int,
    user: int,
    cluster: int,
)
    requires
        config.resolves_to(found),
        config.current_context is Some,
        is_first_named(names_of(config.contexts@), config.current_context->0@, context),
        is_first_named(names_of(config.users@), config.contexts@[context].context.user@, user),
        is_first_named(
            names_of(config.clusters@),
            config.contexts@[context].context.cluster@,
            cluster,
        ),
    ensures
        found is Some,
        *found->0.auth == config.users@[user].user.auth,
        *found->0.cluster == config.clusters@[cluster].cluster,
        found->0.namespace@ == match config.contexts@[context].context.namespace {
            Some(own) => own@,
            None => "default"@,
        },
{
    lemma_first_named_unique(names_of(config.contexts@), config.current_context->0@, context);
    lemma_first_named_unique(
        names_of(config.users@),
        config.contexts@[context].context.user@,
        user,
    );
    lemma_first_named_unique(
        names_of(config.clusters@),
        config.contexts@[context].context.cluster@,
        cluster,
    );
}

/// A document without a current context, or whose current context, or the
/// user or the cluster that it names, is not to be found, resolves to
/// nothing.
pub proof fn lemma_missing_reference_resolves_to_none(
    config: KubernetesConfig,
    found: Option<ResolvedContext>,
)
    requires
        config.resolves_to(found),
        config.current_context is None || !named(
            names_of(config.contexts@),
            config.current_context->0@,
        ) || !named(names_of(config.users@), config.selected_context().user@) || !named(
            names_of(config.clusters@),
            config.selected_context().cluster@,
        ),
    ensures
        found is None,
{
}

/// What a resolution yields is made of entries of the document: a context
/// that bears the current name, a user that bears the name which that context
/// gives for its user, and a cluster that bears the name which it gives for
/// its cluster.
pub proof fn lemma_resolved_entries_bear_the_names(
    config: KubernetesConfig,
    found: Option<ResolvedContext>,
)
    requires
        config.resolves_to(found),
        found is Some,
    ensures
        config.current_context is Some,
        exists|c: int, u: int, k: int|
            #![trigger config.contexts@[c], config.users@[u], config.clusters@[k]]
            {
                &&& 0 <= c < config.contexts@.len()
                &&& 0 <= u < config.users@.len()
                &&& 0 <= k < config.clusters@.len()
                &&& config.contexts@[c].name@ == config.current_context->0@
                &&& config.users@[u].name@ == config.contexts@[c].context.user@
                &&& config.clusters@[k].name@ == config.contexts@[c].context.cluster@
                &&& *found->0.auth == config.users@[u].user.auth
                &&& *found->0.cluster == config.clusters@[k].cluster
                &&& found->0.namespace@ == effective_namespace(
                    config.contexts@[c].context.namespace,
                )
            },
{
    let current = config.current_context->0@;
    lemma_first_named_exists(names_of(config.contexts@), current);
    let c = first_named(names_of(config.contexts@), current);
    lemma_first_named_exists(names_of(config.users@), config.contexts@[c].context.user@);
    let u = first_named(names_of(config.users@), config.contexts@[c].context.user@);
    lemma_first_named_exists(names_of(config.clusters@), config.contexts@[c].context.cluster@);
    let k = first_named(names_of(config.clusters@), config.contexts@[c].context.cluster@);
    assert(config.contexts@[c].name@ == names_of(config.contexts@)[c]);
    assert(config.users@[u].name@ == names_of(config.users@)[u]);
    assert(config.clusters@[k].name@ == names_of(config.clusters@)[k]);
    assert(config.users@[u].user == config.selected_user());
    assert(config.clusters@[k].cluster == config.selected_cluster());
}

/// Resolution is a function of the document: two resolutions of one document
/// agree on whether there is a context and, if there is, on its credential,
/// its cluster and its namespace.
pub proof fn lemma_resolution_is_repeatable(
    config: KubernetesConfig,
    first: Option<ResolvedContext>,
    second: Option<ResolvedContext>,
)
    requires
        config.resolves_to(first),
        config.resolves_to(second),
    ensures
        first is Some <==> second is Some,
        first is Some ==> {
            &&& *first->0.auth == *second->0.auth
            &&& *first->0.cluster == *second->0.cluster
            &&& first->0.namespace@ == second->0.namespace@
        },
{
}

} // verus!
