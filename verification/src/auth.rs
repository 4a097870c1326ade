//! The credential of a user entry: a closed set of mutually exclusive forms.

use crate::bytes::Bytes;
use crate::error::KubeError;
use crate::transport::{
    authorization_only, header_bytes_allowed, header_entries, header_value, identity_from_pem,
    insert_authorization, no_headers,
};
use reqwest::header::{HeaderMap, HeaderValue};
use reqwest::Identity;
use std::collections::HashMap;
use vstd::prelude::*;
use vstd::std_specs::convert::FromSpecImpl;
use vstd::string::*;
use vstd::utf8::encode_utf8;

verus! {

/// How to run a credential plugin. Used again, unchanged, for every run.
pub struct ExecAuth {
    pub api_version: String,
    pub command: String,
    /// The arguments, in order.
    pub args: Vec<String>,
    /// Variables added to the plugin's environment.
    pub env: HashMap<String, String>,
}

/// An instant, as seconds and nanoseconds since the Unix epoch, in UTC.
#[derive(Clone, Copy, Debug, PartialEq, Eq, Structural)]
pub struct Timestamp {
    pub seconds: i64,
    pub nanoseconds: u32,
}

/// The credential that a plugin printed. The expiry is carried along; nothing
/// here acts on it.
pub enum ExecCredentialStatus {
    Token { token: String, expiration_timestamp: Option<Timestamp> },
    CertificateEmbedded { certificate: Bytes, key: Bytes, expiration_timestamp: Option<Timestamp> },
}

/// The document that a credential plugin prints on success.
pub struct ExecCredential {
    pub api_version: String,
    pub kind: String,
    pub status: ExecCredentialStatus,
}

/// The credential of a user. Exactly one form holds at a time.
pub enum Auth {
    Plain { username: String, password: String },
    Token { token: String },
    /// Certificate and key, read from the files that the document named.
    CertificateFile { certificate: Bytes, key: Bytes },
    /// Certificate and key, decoded from the document itself.
    CertificateEmbedded { certificate: Bytes, key: Bytes },
    /// A plugin that issues the credential when it is run.
    Exec { descriptor: ExecAuth },
    /// No credential.
    Null {},
}

/// What an [`ExecAuth`] holds, as mathematical values.
pub struct ExecAuthView {
    pub api_version: Seq<char>,
    pub command: Seq<char>,
    pub args: Seq<Seq<char>>,
    pub env: Map<String, String>,
}

/// What an [`Auth`] holds, as mathematical values.
pub enum AuthView {
    Plain { username: Seq<char>, password: Seq<char> },
    Token { token: Seq<char> },
    CertificateFile { certificate: Seq<u8>, key: Seq<u8> },
    CertificateEmbedded { certificate: Seq<u8>, key: Seq<u8> },
    Exec { descriptor: ExecAuthView },
    Null,
}

impl View for ExecAuth {
    type V = ExecAuthView;

    open spec fn view(&self) -> ExecAuthView {
        ExecAuthView {
            api_version: self.api_version@,
            command: self.command@,
            args: self.args@.map_values(|arg: String| arg@),
            env: self.env@,
        }
    }
}

impl View for Auth {
    type V = AuthView;

    open spec fn view(&self) -> AuthView {
        match self {
            Auth::Plain { username, password } => AuthView::Plain {
                username: username@,
                password: password@,
            },
            Auth::Token { token } => AuthView::Token { token: token@ },
            Auth::CertificateFile { certificate, key } => AuthView::CertificateFile {
                certificate: certificate@,
                key: key@,
            },
            Auth::CertificateEmbedded { certificate, key } => AuthView::CertificateEmbedded {
                certificate: certificate@,
                key: key@,
            },
            Auth::Exec { descriptor } => AuthView::Exec { descriptor: descriptor@ },
            Auth::Null {  } => AuthView::Null,
        }
    }
}

impl Clone for ExecAuth {
    fn clone(&self) -> (res: ExecAuth)
        ensures
            res@ == self@,
    {
        let res = ExecAuth {
            api_version: self.api_version.clone(),
            command: self.command.clone(),
            args: self.args.clone(),
            env: self.env.clone(),
        };
        assert(res.args@ =~= self.args@);
        res
    }
}

impl Clone for Auth {
    fn clone(&self) -> (res: Auth)
        ensures
            res@ == self@,
    {
        match self {
            Auth::Plain { username, password } => Auth::Plain {
                username: username.clone(),
                password: password.clone(),
            },
            Auth::Token { token } => Auth::Token { token: token.clone() },
            Auth::CertificateFile { certificate, key } => Auth::CertificateFile {
                certificate: certificate.clone(),
                key: key.clone(),
            },
            Auth::CertificateEmbedded { certificate, key } => Auth::CertificateEmbedded {
                certificate: certificate.clone(),
                key: key.clone(),
            },
            Auth::Exec { descriptor } => Auth::Exec { descriptor: descriptor.clone() },
            Auth::Null {  } => Auth::Null {  },
        }
    }
}

impl Default for Auth {
    /// A user entry without credential fields has no credential.
    fn default() -> (res: Auth)
        ensures
            res == (Auth::Null {  }),
    {
        Auth::Null {  }
    }
}

impl From<ExecCredential> for Auth {
    /// The credential that a plugin issued, as the form it stands for. The
    /// expiry is dropped.
    fn from(credential: ExecCredential) -> (res: Auth) {
        match credential.status {
            ExecCredentialStatus::Token { token, expiration_timestamp: _ } => Auth::Token { token },
            ExecCredentialStatus::CertificateEmbedded {
                certificate,
                key,
                expiration_timestamp: _,
            } => Auth::CertificateEmbedded { certificate, key },
        }
    }
}

impl FromSpecImpl<ExecCredential> for Auth {
    open spec fn obeys_from_spec() -> bool {
        true
    }

    open spec fn from_spec(credential: ExecCredential) -> Auth {
        match credential.status {
            ExecCredentialStatus::Token { token, .. } => Auth::Token { token },
            ExecCredentialStatus::CertificateEmbedded { certificate, key, .. } => {
                Auth::CertificateEmbedded { certificate, key }
            },
        }
    }
}

/// The value of the `Authorization` header for a bearer token.
pub open spec fn bearer(token: Seq<char>) -> Seq<char> {
    "Bearer "@ + token
}

impl Auth {
    /// The `Authorization` header value that this credential calls for.
    pub open spec fn spec_authorization(&self) -> Option<Seq<char>> {
        match self {
            Auth::Token { token } => Some(bearer(token@)),
            _ => None,
        }
    }

    /// The identity blob that this credential calls for: the certificate's
    /// bytes, then the key's.
    pub open spec fn spec_identity_pem(&self) -> Option<Seq<u8>> {
        match self {
            Auth::CertificateFile { certificate, key } => Some(certificate@ + key@),
            Auth::CertificateEmbedded { certificate, key } => Some(certificate@ + key@),
            _ => None,
        }
    }

    /// Whether the header that this credential calls for, if any, can be set.
    pub open spec fn header_accepted(&self) -> bool {
        self.spec_authorization() matches Some(text) ==> header_bytes_allowed(encode_utf8(text))
    }

    /// Whether the identity blob that this credential calls for, if any, is
    /// accepted by the transport library.
    pub open spec fn identity_accepted(&self) -> bool {
        self.spec_identity_pem() matches Some(pem) ==> identity_from_pem(pem) is Ok
    }

    /// The default headers that this credential calls for: `authorization`
    /// with the bytes of the bearer text for the token form, none otherwise.
    pub open spec fn spec_headers(&self) -> Map<Seq<char>, Seq<u8>> {
        match self.spec_authorization() {
            Some(text) => authorization_only(encode_utf8(text)),
            None => no_headers(),
        }
    }

    /// What the transport library's answer on the identity blob comes to.
    pub open spec fn spec_identity_result(parsed: Result<Identity, reqwest::Error>) -> Result<
        Option<Identity>,
        KubeError,
    > {
        match parsed {
            Ok(identity) => Ok(Some(identity)),
            Err(source) => Err(KubeError::InvalidIdentity { source }),
        }
    }

    /// The client identity, or the refusal, that this credential comes to:
    /// what the transport library makes of the blob, where there is one.
    pub open spec fn spec_identity(&self) -> Result<Option<Identity>, KubeError> {
        match self.spec_identity_pem() {
            Some(pem) => Auth::spec_identity_result(identity_from_pem(pem)),
            None => Ok(None),
        }
    }

    /// The bearer token, if this is the token form.
    pub fn token(&self) -> (res: Option<&str>)
        ensures
            match self {
                Auth::Token { token } => res matches Some(text) && text@ == token@,
                _ => res is None,
            },
    {
        match self {
            Auth::Token { token } => Some(token.as_str()),
            _ => None,
        }
    }

    /// The `Authorization` header value: `Bearer ` and the token, for the
    /// token form; none for every other form.
    pub fn authorization(&self) -> (res: Option<String>)
        ensures
            match self.spec_authorization() {
                Some(text) => res matches Some(value) && value@ == text,
                None => res is None,
            },
    {
        match self.token() {
            Some(token) => {
                let mut value = String::from_str("Bearer ");
                value.append(token);
                Some(value)
            },
            None => None,
        }
    }

    /// The default headers of a client that uses this credential: the
    /// `Authorization` header for the token form, nothing otherwise. Fails
    /// exactly when the token holds a byte that no header value may hold.
    pub fn default_headers(&self) -> (res: Result<HeaderMap<HeaderValue>, KubeError>)
        ensures
            self.header_accepted() <==> res is Ok,
            res matches Ok(headers) ==> header_entries(headers) == self.spec_headers(),
            res matches Err(e) ==> e is InvalidAuthHeader,
    {
        let mut headers = HeaderMap::new();
        if let Some(text) = self.authorization() {
            match header_value(text.as_str()) {
                Ok(value) => {
                    insert_authorization(&mut headers, value);
                },
                Err(fault) => {
                    return Err(KubeError::InvalidAuthHeader { message: fault.to_string() });
                },
            }
        }
        Ok(headers)
    }

    /// The blob handed to the transport library's identity constructor: the
    /// certificate's bytes followed by the key's, for either certificate
    /// form; none for every other form.
    pub fn identity_pem(&self) -> (res: Option<Vec<u8>>)
        ensures
            match self.spec_identity_pem() {
                Some(pem) => res matches Some(blob) && blob@ == pem,
                None => res is None,
            },
    {
        let (certificate, key) = match self {
            Auth::CertificateFile { certificate, key } => (certificate, key),
            Auth::CertificateEmbedded { certificate, key } => (certificate, key),
            _ => {
                return None;
            },
        };
        let mut blob: Vec<u8> = Vec::new();
        blob.extend_from_slice(certificate.as_slice());
        blob.extend_from_slice(key.as_slice());
        assert(blob@ =~= certificate@ + key@);
        Some(blob)
    }

    /// What [`Auth::identity`] returns once the transport library has
    /// answered: its identity, or its refusal as `InvalidIdentity`.
    pub fn identity_result(parsed: Result<Identity, reqwest::Error>) -> (res: Result<
        Option<Identity>,
        KubeError,
    >)
        ensures
            res == Auth::spec_identity_result(parsed),
    {
        match parsed {
            Ok(identity) => Ok(Some(identity)),
            Err(source) => Err(KubeError::InvalidIdentity { source }),
        }
    }

    /// The client identity for this credential, if it is a certificate and
    /// key: none for the other forms; for a pair, the identity that the
    /// transport library makes of the blob of [`Auth::identity_pem`], or
    /// `InvalidIdentity` with its refusal.
    pub fn identity(&self) -> (res: Result<Option<Identity>, KubeError>)
        ensures
            res == self.spec_identity(),
    {
        match self.identity_pem() {
            None => Ok(None),
            Some(blob) => Auth::identity_result(Identity::from_pem(blob.as_slice())),
        }
    }
}

} // verus!
