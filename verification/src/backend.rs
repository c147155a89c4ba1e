//! Backend configuration and the backend selector.
//!
//! An account watches its mailbox through exactly one backend. Each backend
//! kind is configured by its own variant of [`BackendConfig`]; the selector
//! decides from that variant which watchable-backend capability has to be
//! built, without knowing how the backend implements watching.

use vstd::prelude::*;

use crate::error::BackendBuildError;

verus! {

/// The kinds of backend a configuration can name.
#[derive(Clone, Copy, Debug, PartialEq, Eq, Structural)]
pub enum BackendKind {
    Imap,
    Maildir,
}

/// A reference into the platform keyring, canonically derived from the
/// account name and the backend kind that owns the secret.
///
/// The watch path only passes such references through; retrieving the secret
/// behind one is the secret store's job at authentication time.
#[derive(Clone, Debug, PartialEq, Eq)]
pub struct KeyringEntryRef {
    /// The account the secret belongs to; doubles as the keyring namespace.
    pub account: String,
    /// The backend kind whose authentication uses the secret.
    pub backend: BackendKind,
}

/// How an authentication secret is referred to in the configuration.
#[derive(Clone, Debug, PartialEq, Eq)]
pub enum SecretRef {
    /// An empty placeholder: the user left the secret undefined, expecting
    /// the secret-resolution pass to rewrite it to a keyring reference.
    Undefined,
    /// The secret itself, written inline in the configuration.
    Raw(String),
    /// A shell command that prints the secret.
    Command(String),
    /// An entry in the platform keyring.
    Keyring(KeyringEntryRef),
}

/// The authentication descriptor of the IMAP backend.
#[derive(Clone, Debug, PartialEq, Eq)]
pub enum ImapAuthConfig {
    /// Plain password authentication; the password is found through the
    /// contained secret reference.
    Password(SecretRef),
}

/// The IMAP backend configuration.
#[derive(Clone, Debug, PartialEq, Eq)]
pub struct ImapConfig {
    /// The IMAP server host name.
    pub host: String,
    /// The IMAP server port.
    pub port: u16,
    /// The login (account) name on the server.
    pub login: String,
    /// How to authenticate against the server.
    pub auth: ImapAuthConfig,
}

/// The Maildir backend configuration.
#[derive(Clone, Debug, PartialEq, Eq)]
pub struct MaildirConfig {
    /// The root directory of the Maildir tree to watch.
    pub root_dir: String,
}

/// The backend-specific configuration: exactly one variant is active per
/// account.
#[derive(Clone, Debug, PartialEq, Eq)]
pub enum BackendConfig {
    /// The IMAP backend configuration.
    Imap(ImapConfig),
    /// The Maildir backend configuration.
    Maildir(MaildirConfig),
}

impl BackendKind {
    /// The kind's display name, as shown in operator-facing notices.
    pub fn display(&self) -> (r: &'static str)
        ensures
            *self == BackendKind::Imap ==> r@ == "IMAP"@,
            *self == BackendKind::Maildir ==> r@ == "Maildir"@,
    {
        match self {
            BackendKind::Imap => "IMAP",
            BackendKind::Maildir => "Maildir",
        }
    }
}

impl BackendConfig {
    /// The kind of backend this configuration names.
    pub open spec fn kind_spec(&self) -> BackendKind {
        match self {
            BackendConfig::Imap(_) => BackendKind::Imap,
            BackendConfig::Maildir(_) => BackendKind::Maildir,
        }
    }

    /// The kind of backend this configuration names.
    pub fn kind(&self) -> (k: BackendKind)
        ensures
            k == self.kind_spec(),
    {
        match self {
            BackendConfig::Imap(_) => BackendKind::Imap,
            BackendConfig::Maildir(_) => BackendKind::Maildir,
        }
    }
}

/// Which backend kinds the hosting build can actually turn into a watchable
/// backend. A build may leave a kind out (for instance when its protocol
/// client is not compiled in); configurations naming such a kind are rejected
/// by the selector instead of being half-built.
#[derive(Clone, Copy, Debug, PartialEq, Eq, Structural)]
pub struct BackendSupport {
    /// The build can construct IMAP sessions.
    pub imap: bool,
    /// The build can construct Maildir watchers.
    pub maildir: bool,
}

impl BackendSupport {
    /// Whether the given kind can be built.
    pub open spec fn supports_spec(&self, kind: BackendKind) -> bool {
        match kind {
            BackendKind::Imap => self.imap,
            BackendKind::Maildir => self.maildir,
        }
    }
}

/// The selector's structural check: a configuration naming a backend kind
/// that the hosting build left out is rejected with `UnsupportedBackend`,
/// before any session handshake is attempted.
pub fn check_backend_supported(config: &BackendConfig, support: &BackendSupport) -> (r: Result<
    BackendKind,
    BackendBuildError,
>)
    ensures
        support.supports_spec(config.kind_spec()) ==> r == Ok::<BackendKind, BackendBuildError>(
            config.kind_spec(),
        ),
        !support.supports_spec(config.kind_spec()) ==> r == Err::<BackendKind, BackendBuildError>(
            BackendBuildError::UnsupportedBackend,
        ),
{
    let kind = config.kind();
    let supported = match kind {
        BackendKind::Imap => support.imap,
        BackendKind::Maildir => support.maildir,
    };
    if supported {
        Ok(kind)
    } else {
        Err(BackendBuildError::UnsupportedBackend)
    }
}

} // verus!
