//! The failures that loading, resolving and bootstrapping report.

use std::path::PathBuf;
use vstd::prelude::*;

verus! {

/// `std::path::PathBuf`, carried through and never looked into.
#[verifier::external_type_specification]
#[verifier::external_body]
pub struct ExPathBuf(PathBuf);

/// `std::io::Error`, carried through and never looked into.
#[verifier::external_type_specification]
#[verifier::external_body]
pub struct ExIoError(std::io::Error);

/// `serde_yaml::Error`, carried through and never looked into.
#[verifier::external_type_specification]
#[verifier::external_body]
pub struct ExYamlError(serde_yaml::Error);

/// `reqwest::Error`, carried through and never looked into.
#[verifier::external_type_specification]
#[verifier::external_body]
pub struct ExTransportError(reqwest::Error);

/// `subprocess::PopenError`, carried through and never looked into.
#[verifier::external_type_specification]
#[verifier::external_body]
pub struct ExPopenError(subprocess::PopenError);

/// The failures of this library.
///
/// Every failure is reported to the caller of the operation that met it;
/// nothing is retried or passed over.
#[allow(inconsistent_fields)]
#[derive(Debug)]
pub enum KubeError {
    /// The configuration document could not be opened or read.
    ConfigRead { path: PathBuf, source: std::io::Error },
    /// The configuration document does not fit the schema.
    ConfigDeserialize { path: PathBuf, source: serde_yaml::Error },
    /// The selected context, or a name it refers to, is not in the document.
    ContextNotFound { path: PathBuf, context: Option<String> },
    /// The bearer token cannot stand in a header value.
    InvalidAuthHeader { message: String },
    /// The client certificate and key do not make an identity.
    InvalidIdentity { source: reqwest::Error },
    /// The transport client could not be built.
    ReqwestInit { source: reqwest::Error },
    /// The credential plugin could not be launched.
    AuthPluginExecError { command: String, source: subprocess::PopenError },
    /// The credential plugin ran and exited with a failure status.
    AuthPluginError { command: String, message: String },
    /// The credential plugin succeeded and its output could not be decoded.
    AuthPluginDeserialize { command: String, source: serde_yaml::Error },
    /// A certificate could not be converted from PEM to DER.
    CertificateConversionError { message: String },
    /// The cluster's certificate authority could not be parsed; `context`
    /// names the field it came from.
    InvalidCertificate { context: String, source: reqwest::Error },
}

} // verus!
