use kubeconfig::auth::Auth;
use kubeconfig::bytes::Bytes;
use kubeconfig::config::{
    default_skip_tls_verify, Cluster, ClusterCertificateAuthority, ClusterContainer, Context,
    ContextContainer, KubernetesConfig, User, UserContainer,
};
use kubeconfig::error::KubeError;
use std::collections::HashMap;

fn cluster(name: &str, server: &str) -> ClusterContainer {
    ClusterContainer {
        name: name.to_string(),
        cluster: Cluster {
            server: server.to_string(),
            insecure_skip_tls_verify: default_skip_tls_verify(),
            certificate_authority: None,
        },
    }
}

fn user(name: &str, token: &str) -> UserContainer {
    UserContainer { name: name.to_string(), user: User { auth: Auth::Token { token: token.to_string() } } }
}

fn context(name: &str, cluster: &str, user: &str, namespace: Option<&str>) -> ContextContainer {
    ContextContainer {
        name: name.to_string(),
        context: Context {
            cluster: cluster.to_string(),
            namespace: namespace.map(|n| n.to_string()),
            user: user.to_string(),
        },
    }
}

fn document(current: Option<&str>) -> KubernetesConfig {
    KubernetesConfig {
        api_version: "v1".to_string(),
        kind: "Config".to_string(),
        clusters: vec![
            cluster("production", "https://prod.example:6443"),
            cluster("staging", "https://staging.example:6443/"),
        ],
        contexts: vec![
            context("prod-admin", "production", "admin", Some("kube-system")),
            context("staging-dev", "staging", "developer", None),
            context("stale-user", "staging", "gone", Some("x")),
            context("stale-cluster", "decommissioned", "admin", Some("x")),
        ],
        users: vec![user("admin", "admin-token"), user("developer", "dev-token")],
        current_context: current.map(|c| c.to_string()),
        preferences: HashMap::new(),
    }
}

fn token_of(auth: &Auth) -> &str {
    match auth.token() {
        Some(token) => token,
        None => panic!("not a token"),
    }
}

#[test]
fn skip_tls_verify_defaults_to_false() {
    assert!(!default_skip_tls_verify());
}

#[test]
fn default_user_has_no_credential() {
    assert!(matches!(User::default().auth, Auth::Null {}));
}

#[test]
fn current_context_resolves_with_its_own_namespace() {
    let config = document(Some("prod-admin"));
    let resolved = config.current_context().expect("unresolved");
    assert_eq!(resolved.namespace, "kube-system");
    assert_eq!(token_of(resolved.auth), "admin-token");
    assert_eq!(resolved.cluster.server, "https://prod.example:6443");
    assert!(!resolved.cluster.insecure_skip_tls_verify);
}

#[test]
fn current_context_without_namespace_gets_default() {
    let config = document(Some("staging-dev"));
    let resolved = config.current_context().expect("unresolved");
    assert_eq!(resolved.namespace, "default");
    assert_eq!(token_of(resolved.auth), "dev-token");
    assert_eq!(resolved.cluster.server, "https://staging.example:6443/");
}

#[test]
fn resolved_context_borrows_from_the_document() {
    let config = document(Some("prod-admin"));
    let resolved = config.current_context().expect("unresolved");
    assert!(std::ptr::eq(resolved.auth, &config.users[0].user.auth));
    assert!(std::ptr::eq(resolved.cluster, &config.clusters[0].cluster));
}

#[test]
fn missing_current_context_yields_no_context() {
    assert!(document(None).current_context().is_none());
}

#[test]
fn unknown_current_context_yields_no_context() {
    assert!(document(Some("nowhere")).current_context().is_none());
    assert!(document(Some("")).current_context().is_none());
    assert!(document(Some("Prod-Admin")).current_context().is_none());
}

#[test]
fn dangling_user_yields_no_context() {
    assert!(document(Some("stale-user")).current_context().is_none());
}

#[test]
fn dangling_cluster_yields_no_context() {
    assert!(document(Some("stale-cluster")).current_context().is_none());
}

#[test]
fn empty_document_yields_no_context() {
    let config = KubernetesConfig {
        api_version: "v1".to_string(),
        kind: "Config".to_string(),
        clusters: vec![],
        contexts: vec![],
        users: vec![],
        current_context: Some("any".to_string()),
        preferences: HashMap::new(),
    };
    assert!(config.current_context().is_none());
}

#[test]
fn first_of_repeated_names_wins() {
    let mut config = document(Some("twice"));
    config.contexts.push(context("twice", "staging", "developer", Some("first")));
    config.contexts.push(context("twice", "production", "admin", Some("second")));
    config.users.push(user("developer", "shadowed"));
    config.clusters.push(cluster("staging", "https://shadowed.example"));
    let resolved = config.current_context().expect("unresolved");
    assert_eq!(resolved.namespace, "first");
    assert_eq!(token_of(resolved.auth), "dev-token");
    assert_eq!(resolved.cluster.server, "https://staging.example:6443/");
}

#[test]
fn first_of_repeated_contexts_decides_even_if_dangling() {
    let mut config = document(Some("twice"));
    config.contexts.push(context("twice", "staging", "gone", None));
    config.contexts.push(context("twice", "staging", "developer", None));
    assert!(config.current_context().is_none());
}

#[test]
fn resolving_twice_yields_equal_results() {
    let config = document(Some("prod-admin"));
    let first = config.current_context().expect("unresolved");
    let second = config.current_context().expect("unresolved");
    assert_eq!(first.namespace, second.namespace);
    assert!(std::ptr::eq(first.auth, second.auth));
    assert!(std::ptr::eq(first.cluster, second.cluster));
    assert_eq!(token_of(first.auth), token_of(second.auth));
    assert_eq!(first.cluster.server, second.cluster.server);

    let unresolved = document(Some("stale-user"));
    assert!(unresolved.current_context().is_none());
    assert!(unresolved.current_context().is_none());
}

#[test]
fn resolved_auth_keeps_its_form() {
    let mut config = document(Some("prod-admin"));
    config.users[0].user.auth = Auth::CertificateEmbedded {
        certificate: Bytes::new(vec![1, 2]),
        key: Bytes::new(vec![3]),
    };
    let resolved = config.current_context().expect("unresolved");
    match resolved.auth {
        Auth::CertificateEmbedded { certificate, key } => {
            assert_eq!(certificate.as_slice(), &[1, 2]);
            assert_eq!(key.as_slice(), &[3]);
        }
        _ => panic!("another form"),
    }
}

#[test]
fn certificate_authority_names_its_field() {
    let file = ClusterCertificateAuthority::File { certificate: Bytes::new(vec![1]) };
    let embedded = ClusterCertificateAuthority::Embedded { certificate: Bytes::new(vec![2]) };
    assert_eq!(file.field(), "certificate-authority");
    assert_eq!(embedded.field(), "certificate-authority-data");
    assert_eq!(file.certificate().as_slice(), &[1]);
    assert_eq!(embedded.certificate().as_slice(), &[2]);
}

const SHAPED: &str = "-----BEGIN CERTIFICATE-----\nAAAA\n-----END CERTIFICATE-----\n";
const MALFORMED: &str = "-----BEGIN CERTIFICATE-----\n!!!!\n-----END CERTIFICATE-----\n";

fn with_authority(authority: ClusterCertificateAuthority) -> Cluster {
    let mut entry = cluster("c", "https://c.example");
    entry.cluster.certificate_authority = Some(authority);
    entry.cluster
}

fn root_count(cluster: &Cluster) -> usize {
    match cluster.root_certificates() {
        Ok(certificates) => certificates.len(),
        Err(_) => panic!("refused"),
    }
}

#[test]
fn cluster_without_authority_has_no_root_certificate() {
    let entry = cluster("c", "https://c.example");
    assert_eq!(root_count(&entry.cluster), 0);
}

#[test]
fn cluster_authority_becomes_root_certificates() {
    let embedded =
        with_authority(ClusterCertificateAuthority::Embedded { certificate: Bytes::from_text(SHAPED) });
    assert_eq!(root_count(&embedded), 1);
    let file =
        with_authority(ClusterCertificateAuthority::File { certificate: Bytes::from_text(SHAPED) });
    assert_eq!(root_count(&file), 1);
    let two = format!("{}{}", SHAPED, SHAPED);
    let bundle =
        with_authority(ClusterCertificateAuthority::File { certificate: Bytes::from_text(&two) });
    assert_eq!(root_count(&bundle), 2);
}

#[test]
fn authority_without_a_certificate_gives_no_root() {
    let junk = with_authority(ClusterCertificateAuthority::Embedded {
        certificate: Bytes::from_text("not a certificate"),
    });
    assert_eq!(root_count(&junk), 0);
}

#[test]
fn malformed_authority_is_refused_with_its_field() {
    let embedded = with_authority(ClusterCertificateAuthority::Embedded {
        certificate: Bytes::from_text(MALFORMED),
    });
    match embedded.root_certificates() {
        Err(KubeError::InvalidCertificate { context, .. }) => {
            assert_eq!(context, "certificate-authority-data")
        }
        _ => panic!("not refused as a certificate"),
    }
    let file =
        with_authority(ClusterCertificateAuthority::File { certificate: Bytes::from_text(MALFORMED) });
    match file.root_certificates() {
        Err(KubeError::InvalidCertificate { context, .. }) => {
            assert_eq!(context, "certificate-authority")
        }
        _ => panic!("not refused as a certificate"),
    }
    let unterminated = with_authority(ClusterCertificateAuthority::File {
        certificate: Bytes::from_text("-----BEGIN CERTIFICATE-----\nAAAA\n"),
    });
    assert!(matches!(
        unterminated.root_certificates(),
        Err(KubeError::InvalidCertificate { .. })
    ));
}

#[test]
fn refused_authority_is_reported_with_its_field() {
    let refusal = || match reqwest::Certificate::from_pem_bundle(MALFORMED.as_bytes()) {
        Err(e) => e,
        Ok(_) => panic!("accepted"),
    };
    let text = refusal().to_string();
    let file = ClusterCertificateAuthority::File { certificate: Bytes::new(vec![1]) };
    match file.root_certificates_result(Err(refusal())) {
        Err(KubeError::InvalidCertificate { context, source }) => {
            assert_eq!(context, "certificate-authority");
            assert_eq!(source.to_string(), text);
        }
        _ => panic!("not refused as a certificate"),
    }
    let embedded = ClusterCertificateAuthority::Embedded { certificate: Bytes::new(vec![1]) };
    match embedded.root_certificates_result(Err(refusal())) {
        Err(KubeError::InvalidCertificate { context, .. }) => {
            assert_eq!(context, "certificate-authority-data")
        }
        _ => panic!("not refused as a certificate"),
    }
    let accepted = reqwest::Certificate::from_pem_bundle(SHAPED.as_bytes());
    match file.root_certificates_result(accepted) {
        Ok(certificates) => assert_eq!(certificates.len(), 1),
        Err(_) => panic!("refused"),
    }
}
