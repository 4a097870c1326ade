use kubeconfig::auth::{Auth, ExecAuth, ExecCredential, ExecCredentialStatus, Timestamp};
use kubeconfig::bytes::Bytes;
use kubeconfig::error::KubeError;
use kubeconfig::plugin::PluginRun;
use std::cell::Cell;
use std::collections::HashMap;
use subprocess::PopenError;

fn descriptor() -> ExecAuth {
    let mut env = HashMap::new();
    env.insert("AWS_PROFILE".to_string(), "staging".to_string());
    ExecAuth {
        api_version: "client.authentication.k8s.io/v1beta1".to_string(),
        command: "aws-iam-authenticator".to_string(),
        args: vec!["token".to_string(), "-i".to_string(), "cluster-1".to_string()],
        env,
    }
}

fn exec_auth() -> Auth {
    Auth::Exec { descriptor: descriptor() }
}

fn token_credential(token: &str, expiry: Option<Timestamp>) -> ExecCredential {
    ExecCredential {
        api_version: "client.authentication.k8s.io/v1beta1".to_string(),
        kind: "ExecCredential".to_string(),
        status: ExecCredentialStatus::Token { token: token.to_string(), expiration_timestamp: expiry },
    }
}

fn exited(success: bool, stdout: &[u8], stderr: &str) -> PluginRun {
    PluginRun::Exited { success, stdout: stdout.to_vec(), stderr: stderr.to_string() }
}

fn yaml_error() -> serde_yaml::Error {
    serde_yaml::from_str::<u32>("{ unbalanced").unwrap_err()
}

#[test]
fn plugin_that_succeeds_with_a_token_yields_token_auth() {
    let expiry = Some(Timestamp { seconds: 1_893_456_000, nanoseconds: 5 });
    let result = exec_auth().exec(
        |_: &ExecAuth| exited(true, b"{\"status\": {\"token\": \"my-bearer\"}}", ""),
        |_: &Vec<u8>| Ok(token_credential("my-bearer", expiry)),
    );
    let credential = match result {
        Ok(Some(credential)) => credential,
        _ => panic!("no credential"),
    };
    match Auth::from(credential) {
        Auth::Token { token } => assert_eq!(token, "my-bearer"),
        _ => panic!("not a token"),
    }
}

#[test]
fn plugin_that_fails_reports_its_standard_error() {
    let result = exec_auth().exec(
        |_: &ExecAuth| exited(false, b"", "denied"),
        |_: &Vec<u8>| panic!("the output of a failed plugin was decoded"),
    );
    match result {
        Err(KubeError::AuthPluginError { command, message }) => {
            assert_eq!(command, "aws-iam-authenticator");
            assert_eq!(message, "denied");
        }
        _ => panic!("not a plugin error"),
    }
}

#[test]
fn plugin_failure_keeps_standard_error_word_for_word() {
    let stderr = "  line one\nline two \u{fffd}\n";
    let result = exec_auth().exec(
        |_: &ExecAuth| exited(false, b"{\"status\": {\"token\": \"ignored\"}}", stderr),
        |_: &Vec<u8>| Ok(token_credential("ignored", None)),
    );
    match result {
        Err(KubeError::AuthPluginError { message, .. }) => assert_eq!(message, stderr),
        _ => panic!("not a plugin error"),
    }
}

#[test]
fn plugin_output_that_does_not_decode_is_reported() {
    let detail = yaml_error().to_string();
    let result = exec_auth().exec(
        |_: &ExecAuth| exited(true, b"{ unbalanced", "warning: ignored"),
        |_: &Vec<u8>| Err(yaml_error()),
    );
    match result {
        Err(KubeError::AuthPluginDeserialize { command, source }) => {
            assert_eq!(command, "aws-iam-authenticator");
            assert_eq!(source.to_string(), detail);
        }
        _ => panic!("not a decode error"),
    }
}

#[test]
fn plugin_that_cannot_be_launched_is_reported_apart() {
    let result = exec_auth().exec(
        |_: &ExecAuth| PluginRun::NotLaunched { source: PopenError::LogicError("no such program") },
        |_: &Vec<u8>| panic!("decoded without a run"),
    );
    match result {
        Err(KubeError::AuthPluginExecError { command, source }) => {
            assert_eq!(command, "aws-iam-authenticator");
            assert!(matches!(source, PopenError::LogicError("no such program")));
        }
        _ => panic!("not a launch error"),
    }
}

#[test]
fn other_forms_run_nothing() {
    let others = [
        Auth::Plain { username: "u".to_string(), password: "p".to_string() },
        Auth::Token { token: "t".to_string() },
        Auth::CertificateFile { certificate: Bytes::new(vec![1]), key: Bytes::new(vec![2]) },
        Auth::CertificateEmbedded { certificate: Bytes::new(vec![1]), key: Bytes::new(vec![2]) },
        Auth::Null {},
    ];
    for auth in others {
        let result = auth.exec(
            |_: &ExecAuth| panic!("a plugin was run"),
            |_: &Vec<u8>| panic!("an output was decoded"),
        );
        assert!(matches!(result, Ok(None)));
    }
}

#[test]
fn launcher_is_given_the_descriptor_and_decoder_the_output() {
    let launched = Cell::new(0);
    let decoded = Cell::new(0);
    let result = exec_auth().exec(
        |descriptor: &ExecAuth| {
            launched.set(launched.get() + 1);
            assert_eq!(descriptor.command, "aws-iam-authenticator");
            assert_eq!(descriptor.args, vec!["token", "-i", "cluster-1"]);
            assert_eq!(descriptor.env.get("AWS_PROFILE"), Some(&"staging".to_string()));
            exited(true, b"the output", "")
        },
        |stdout: &Vec<u8>| {
            decoded.set(decoded.get() + 1);
            assert_eq!(stdout.as_slice(), b"the output");
            Ok(token_credential("t", None))
        },
    );
    assert!(matches!(result, Ok(Some(_))));
    assert_eq!(launched.get(), 1);
    assert_eq!(decoded.get(), 1);
}

#[test]
fn certificate_from_a_plugin_yields_embedded_certificate_auth() {
    let result = exec_auth().exec(
        |_: &ExecAuth| exited(true, b"...", ""),
        |_: &Vec<u8>| {
            Ok(ExecCredential {
                api_version: "client.authentication.k8s.io/v1beta1".to_string(),
                kind: "ExecCredential".to_string(),
                status: ExecCredentialStatus::CertificateEmbedded {
                    certificate: Bytes::from_text("CERT"),
                    key: Bytes::from_text("KEY"),
                    expiration_timestamp: None,
                },
            })
        },
    );
    let credential = match result {
        Ok(Some(credential)) => credential,
        _ => panic!("no credential"),
    };
    match Auth::from(credential) {
        Auth::CertificateEmbedded { certificate, key } => {
            assert_eq!(certificate.as_slice(), b"CERT");
            assert_eq!(key.as_slice(), b"KEY");
        }
        _ => panic!("not an embedded certificate"),
    }
}

#[test]
fn after_run_judges_each_outcome() {
    let descriptor = descriptor();
    match descriptor.after_run(exited(true, b"out", "err")) {
        Ok(stdout) => assert_eq!(stdout, b"out".to_vec()),
        Err(_) => panic!("a success was refused"),
    }
    match descriptor.after_run(exited(false, b"out", "err")) {
        Err(KubeError::AuthPluginError { command, message }) => {
            assert_eq!(command, "aws-iam-authenticator");
            assert_eq!(message, "err");
        }
        _ => panic!("not a plugin error"),
    }
    let io = std::io::Error::new(std::io::ErrorKind::NotFound, "missing");
    match descriptor.after_run(PluginRun::NotLaunched { source: PopenError::IoError(io) }) {
        Err(KubeError::AuthPluginExecError { command, source }) => {
            assert_eq!(command, "aws-iam-authenticator");
            match source {
                PopenError::IoError(e) => assert_eq!(e.kind(), std::io::ErrorKind::NotFound),
                _ => panic!("another source"),
            }
        }
        _ => panic!("not a launch error"),
    }
}

#[test]
fn after_decode_judges_each_outcome() {
    let descriptor = descriptor();
    match descriptor.after_decode(Ok(token_credential("t", None))) {
        Ok(Some(credential)) => assert_eq!(credential.kind, "ExecCredential"),
        _ => panic!("no credential"),
    }
    let detail = yaml_error().to_string();
    match descriptor.after_decode(Err(yaml_error())) {
        Err(KubeError::AuthPluginDeserialize { command, source }) => {
            assert_eq!(command, "aws-iam-authenticator");
            assert_eq!(source.to_string(), detail);
        }
        _ => panic!("not a decode error"),
    }
}
