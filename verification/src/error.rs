//! The error taxonomy of a watch invocation.
//!
//! Configuration and backend-build errors abort the invocation before any
//! watch starts; errors during watching abort immediately and skip the
//! graceful shutdown wait; a handshake violation is an internal defect, not
//! a user-facing condition.

use vstd::prelude::*;

verus! {

/// Why an account could not be resolved from the configuration store.
#[derive(Clone, Copy, Debug, PartialEq, Eq, Structural)]
pub enum ConfigResolutionError {
    /// An explicitly named account is not present in the store.
    NotFound,
    /// No account name was given and the store does not flag exactly one
    /// account as the default.
    NoDefaultAccount,
}

/// Why the in-place secret-resolution pass could fail.
///
/// The pass itself only rewrites the in-memory configuration and always
/// succeeds; storing a secret behind the rewritten reference is the secret
/// store's job and its failures surface elsewhere.
#[derive(Clone, Copy, Debug, PartialEq, Eq, Structural)]
pub enum SecretResolutionError {
    /// The platform's secret store cannot be reached.
    KeyringUnavailable,
}

/// Why a watchable backend could not be built from its configuration.
///
/// All of these are non-retriable at this layer; the caller surfaces them.
#[derive(Clone, Copy, Debug, PartialEq, Eq, Structural)]
pub enum BackendBuildError {
    /// The backend rejected the configured credentials.
    AuthenticationFailed,
    /// The backend could not be reached at all.
    ConnectionFailed,
    /// The configuration names a backend kind compiled out of the current
    /// build.
    UnsupportedBackend,
}

/// A backend-reported failure during the watch loop itself.
#[derive(Clone, Debug, PartialEq, Eq)]
pub struct WatchError {
    /// The backend's human-readable description of what went wrong.
    pub message: String,
}

/// Everything that can make a whole watch invocation fail.
#[derive(Clone, Debug, PartialEq, Eq)]
pub enum WatchRunError {
    /// The watchable backend could not be built; nothing was started.
    BackendBuild(BackendBuildError),
    /// The backend failed while the watch loop was running.
    Watch(WatchError),
    /// The operator-interrupt listener could not be installed; this aborts
    /// before the shutdown handshake is even created.
    SignalInstall,
    /// The shutdown handshake was violated: a signal end was dropped or a
    /// signal arrived that the protocol does not allow. Treated as a defect.
    HandshakeViolation,
}

impl ConfigResolutionError {
    /// The single human-readable message shown to the operator.
    pub fn message(&self) -> (r: &'static str)
        ensures
            *self == ConfigResolutionError::NotFound ==> r@ == "account not found in the configuration"@,
            *self == ConfigResolutionError::NoDefaultAccount ==> r@ == "the configuration does not flag exactly one default account"@,
    {
        match self {
            ConfigResolutionError::NotFound => "account not found in the configuration",
            ConfigResolutionError::NoDefaultAccount => "the configuration does not flag exactly one default account",
        }
    }
}

impl BackendBuildError {
    /// The single human-readable message shown to the operator.
    pub fn message(&self) -> (r: &'static str)
        ensures
            *self == BackendBuildError::AuthenticationFailed ==> r@ == "cannot authenticate against the backend"@,
            *self == BackendBuildError::ConnectionFailed ==> r@ == "cannot connect to the backend"@,
            *self == BackendBuildError::UnsupportedBackend ==> r@ == "the configured backend kind is not supported by this build"@,
    {
        match self {
            BackendBuildError::AuthenticationFailed => "cannot authenticate against the backend",
            BackendBuildError::ConnectionFailed => "cannot connect to the backend",
            BackendBuildError::UnsupportedBackend => "the configured backend kind is not supported by this build",
        }
    }
}

} // verus!
