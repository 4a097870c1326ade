//! Resolution of a cluster-access configuration into connection parameters
//! and an authenticated HTTP client.
//!
//! A document names clusters, users and contexts. [`KubernetesConfig`] resolves
//! its current context into a [`ResolvedContext`]; [`Auth::exec`] turns the
//! credential of an exec plugin into a concrete one; [`KubernetesClient`] sets
//! up the transport client for the result. Reading and decoding the document,
//! and running a plugin, are left to the caller.

pub mod auth;
pub mod bytes;
pub mod client;
pub mod config;
pub mod error;
pub mod plugin;
pub mod transport;

pub use crate::auth::{Auth, ExecAuth, ExecCredential, ExecCredentialStatus, Timestamp};
pub use crate::bytes::Bytes;
pub use crate::client::KubernetesClient;
pub use crate::config::{
    default_skip_tls_verify, Cluster, ClusterCertificateAuthority, ClusterContainer, Context,
    ContextContainer, KubernetesConfig, ResolvedContext, User, UserContainer,
};
pub use crate::error::KubeError;
pub use crate::plugin::PluginRun;
