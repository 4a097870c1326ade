//! The bridge from an exec credential to a concrete one: a plugin is run, and
//! what it printed becomes the credential.
//!
//! Running the plugin and decoding its output are the caller's: they are
//! handed in as functions, so that a test can put a fake in their place.

use crate::auth::{Auth, ExecAuth, ExecCredential};
use crate::error::KubeError;
use vstd::prelude::*;

verus! {

/// What one run of a plugin came to.
#[derive(Debug)]
pub enum PluginRun {
    /// The process could not be launched.
    NotLaunched { source: subprocess::PopenError },
    /// The process ran to its end. `stdout` and `stderr` were captured apart.
    Exited { success: bool, stdout: Vec<u8>, stderr: String },
}

impl ExecAuth {
    /// What a run leads to: the standard output, which is to be decoded, or
    /// the failure to report.
    pub open spec fn spec_after_run(&self, run: PluginRun) -> Result<Vec<u8>, KubeError> {
        match run {
            PluginRun::NotLaunched { source } => Err(
                KubeError::AuthPluginExecError { command: self.command, source },
            ),
            PluginRun::Exited { success, stdout, stderr } => if success {
                Ok(stdout)
            } else {
                Err(KubeError::AuthPluginError { command: self.command, message: stderr })
            },
        }
    }

    /// What decoding the standard output leads to: the credential, or the
    /// failure to report.
    pub open spec fn spec_after_decode(
        &self,
        decoded: Result<ExecCredential, serde_yaml::Error>,
    ) -> Result<Option<ExecCredential>, KubeError> {
        match decoded {
            Ok(credential) => Ok(Some(credential)),
            Err(source) => Err(
                KubeError::AuthPluginDeserialize { command: self.command, source },
            ),
        }
    }

    /// Judges a run of the plugin. A plugin that could not be launched gives
    /// `AuthPluginExecError`; one that exited with a failure status gives
    /// `AuthPluginError` with its standard error, word for word; one that
    /// succeeded gives its standard output, to be decoded.
    pub fn after_run(&self, run: PluginRun) -> (res: Result<Vec<u8>, KubeError>)
        ensures
            res == self.spec_after_run(run),
    {
        match run {
            PluginRun::NotLaunched { source } => Err(
                KubeError::AuthPluginExecError { command: self.command.clone(), source },
            ),
            PluginRun::Exited { success, stdout, stderr } => if success {
                Ok(stdout)
            } else {
                Err(KubeError::AuthPluginError { command: self.command.clone(), message: stderr })
            },
        }
    }

    /// Judges the decoding of what a successful plugin printed: the
    /// credential, or `AuthPluginDeserialize` with the decoder's error.
    pub fn after_decode(&self, decoded: Result<ExecCredential, serde_yaml::Error>) -> (res: Result<
        Option<ExecCredential>,
        KubeError,
    >)
        ensures
            res == self.spec_after_decode(decoded),
    {
        match decoded {
            Ok(credential) => Ok(Some(credential)),
            Err(source) => Err(
                KubeError::AuthPluginDeserialize { command: self.command.clone(), source },
            ),
        }
    }
}

impl Auth {
    /// Obtains the credential of an exec plugin.
    ///
    /// For every other form nothing is run and the answer is `Ok(None)`: not
    /// applicable. For the exec form `launch` is called once, with the
    /// descriptor; if the plugin succeeded, `decode` is called once, with its
    /// standard output. Nothing is asked of the two functions but that they
    /// take these arguments. The answer is then what [`ExecAuth::after_run`] and
    /// [`ExecAuth::after_decode`] make of what the two returned.
    pub fn exec<L, D>(&self, launch: L, decode: D) -> (res: Result<Option<ExecCredential>, KubeError>)
        where
            L: FnOnce(&ExecAuth) -> PluginRun,
            D: FnOnce(&Vec<u8>) -> Result<ExecCredential, serde_yaml::Error>,
        requires
            self matches Auth::Exec { descriptor } ==> call_requires(launch, (descriptor,)),
            self matches Auth::Exec { descriptor } ==> forall|run: PluginRun|
                #![trigger call_ensures(launch, (descriptor,), run)]
                call_ensures(launch, (descriptor,), run) ==> (descriptor.spec_after_run(
                    run,
                ) matches Ok(stdout) ==> call_requires(decode, (&stdout,))),
        ensures
            match self {
                Auth::Exec { descriptor } => exists|run: PluginRun|
                    #![trigger descriptor.spec_after_run(run)]
                    call_ensures(launch, (descriptor,), run) && match descriptor.spec_after_run(
                        run,
                    ) {
                        Err(failure) => res == Err::<Option<ExecCredential>, KubeError>(failure),
                        Ok(stdout) => exists|decoded: Result<ExecCredential, serde_yaml::Error>|
                            #![trigger descriptor.spec_after_decode(decoded)]
                            call_ensures(decode, (&stdout,), decoded) && res
                                == descriptor.spec_after_decode(decoded),
                    },
                _ => res == Ok::<Option<ExecCredential>, KubeError>(None),
            },
    {
        let descriptor = match self {
            Auth::Exec { descriptor } => descriptor,
            _ => {
                return Ok(None);
            },
        };
        let run = launch(descriptor);
        match descriptor.after_run(run) {
            Err(failure) => {
                assert(descriptor.spec_after_run(run) is Err);
                Err(failure)
            },
            Ok(stdout) => {
                let decoded = decode(&stdout);
                let res = descriptor.after_decode(decoded);
                assert(res == descriptor.spec_after_decode(decoded));
                res
            },
        }
    }
}

} // verus!
