//! One account's configuration: its backend, the folder it watches, and the
//! hook fired when a new message lands.
//!
//! An account configuration is constructed once at process start, optionally
//! rewritten in place by the one-time secret-resolution pass
//! ([`TomlAccountConfig::configure`]), and then held immutably for the rest
//! of the watch invocation.

use vstd::prelude::*;

use crate::backend::{BackendConfig, BackendKind, ImapAuthConfig, KeyringEntryRef, SecretRef};
use crate::error::SecretResolutionError;

verus! {

/// A system notification to show when a new message arrives. Both fields may
/// contain placeholder tokens (such as a sender or subject marker) that the
/// external watch capability substitutes; the orchestrator passes them
/// through untouched.
#[derive(Clone, Debug, PartialEq, Eq)]
pub struct WatchNotifyConfig {
    /// The notification title.
    pub summary: String,
    /// The notification body.
    pub body: String,
}

/// The hook executed by the backend capability when it observes a new
/// message in the watched mailbox.
#[derive(Clone, Debug, PartialEq, Eq)]
pub struct WatchHook {
    /// A system notification to send, if configured.
    pub notify: Option<WatchNotifyConfig>,
    /// A shell command to run, if configured.
    pub cmd: Option<String>,
}

/// One account's persisted configuration.
#[derive(Clone, Debug, PartialEq, Eq)]
pub struct TomlAccountConfig {
    /// Whether this account is the one used when no name is given
    /// explicitly. At most one account of a configuration set should carry
    /// `Some(true)`; the store does not enforce that, so the inconsistency
    /// surfaces only when the default account is resolved.
    pub default: Option<bool>,
    /// The name of the mailbox to watch changes for. One account watches one
    /// folder; absent, the inbox is watched.
    pub folder: Option<String>,
    /// The backend configuration.
    pub backend: BackendConfig,
    /// The hook to execute when a new message arrives in the watched
    /// mailbox.
    pub on_message_added: Option<WatchHook>,
}

/// The runtime account configuration handed to the backend capability: the
/// resolved account name together with the hook the backend runs on a new
/// message.
#[derive(Clone, Debug, PartialEq, Eq)]
pub struct AccountConfig {
    /// The resolved account name.
    pub name: String,
    /// The hook the backend executes when a message is added.
    pub on_message_added: Option<WatchHook>,
}

/// How one secret reference is rewritten by the secret-resolution pass: an
/// empty placeholder becomes the canonical keyring entry for the account and
/// backend kind; anything already defined is left untouched.
pub open spec fn secret_resolved(
    pre: SecretRef,
    post: SecretRef,
    account_name: Seq<char>,
    kind: BackendKind,
) -> bool {
    match pre {
        SecretRef::Undefined => {
            &&& post matches SecretRef::Keyring(entry)
            &&& entry.account@ == account_name
            &&& entry.backend == kind
        },
        _ => post == pre,
    }
}

/// Whether a secret reference still holds the empty placeholder.
pub open spec fn secret_is_placeholder(secret: SecretRef) -> bool {
    secret is Undefined
}

/// How a whole backend configuration is rewritten by the secret-resolution
/// pass: only an empty IMAP secret placeholder changes; every other field,
/// and the Maildir backend as a whole, stays as it was.
pub open spec fn backend_secrets_resolved(
    pre: BackendConfig,
    post: BackendConfig,
    account_name: Seq<char>,
) -> bool {
    match pre {
        BackendConfig::Imap(pre_imap) => {
            &&& post matches BackendConfig::Imap(post_imap)
            &&& post_imap.host == pre_imap.host
            &&& post_imap.port == pre_imap.port
            &&& post_imap.login == pre_imap.login
            &&& match pre_imap.auth {
                ImapAuthConfig::Password(pre_secret) => {
                    &&& post_imap.auth matches ImapAuthConfig::Password(post_secret)
                    &&& secret_resolved(pre_secret, post_secret, account_name, BackendKind::Imap)
                },
            }
        },
        BackendConfig::Maildir(_) => post == pre,
    }
}

/// How a whole account configuration is rewritten by the secret-resolution
/// pass.
pub open spec fn secrets_resolved(
    pre: TomlAccountConfig,
    post: TomlAccountConfig,
    account_name: Seq<char>,
) -> bool {
    &&& post.default == pre.default
    &&& post.folder == pre.folder
    &&& post.on_message_added == pre.on_message_added
    &&& backend_secrets_resolved(pre.backend, post.backend, account_name)
}

/// Whether a backend configuration holds no empty secret placeholder, i.e.
/// the secret-resolution pass would leave it untouched.
pub open spec fn backend_has_no_placeholder(backend: BackendConfig) -> bool {
    match backend {
        BackendConfig::Imap(imap) => match imap.auth {
            ImapAuthConfig::Password(secret) => !secret_is_placeholder(secret),
        },
        BackendConfig::Maildir(_) => true,
    }
}

impl TomlAccountConfig {
    /// The secret-resolution pass: replace an undefined secret reference of
    /// the account's backend by the canonical keyring entry derived from the
    /// account name and the backend kind.
    ///
    /// The pass mutates the in-memory configuration only and always
    /// succeeds; it is a no-op for backends without secret placeholders.
    /// Writing anything behind the new reference is the secret store's job
    /// on first use.
    pub fn configure(&mut self, account_name: &str) -> (r: Result<(), SecretResolutionError>)
        ensures
            r is Ok,
            secrets_resolved(*old(self), *final(self), account_name@),
    {
        let rewrite = match &self.backend {
            BackendConfig::Imap(imap) => match &imap.auth {
                ImapAuthConfig::Password(secret) => match secret {
                    SecretRef::Undefined => true,
                    _ => false,
                },
            },
            BackendConfig::Maildir(_) => false,
        };
        if rewrite {
            match &self.backend {
                BackendConfig::Imap(imap) => {
                    let resolved = BackendConfig::Imap(
                        crate::backend::ImapConfig {
                            host: imap.host.clone(),
                            port: imap.port,
                            login: imap.login.clone(),
                            auth: ImapAuthConfig::Password(
                                SecretRef::Keyring(
                                    KeyringEntryRef {
                                        account: account_name.to_owned(),
                                        backend: BackendKind::Imap,
                                    },
                                ),
                            ),
                        },
                    );
                    self.backend = resolved;
                },
                BackendConfig::Maildir(_) => {},
            }
        }
        Ok(())
    }

    /// Split the persisted account configuration into what the selector
    /// needs (the backend configuration) and what the backend capability
    /// needs at watch time (the runtime account configuration under the
    /// resolved name).
    pub fn into_account_config(self, name: String) -> (r: (BackendConfig, AccountConfig))
        ensures
            r.0 == self.backend,
            r.1.name == name,
            r.1.on_message_added == self.on_message_added,
    {
        (
            self.backend,
            AccountConfig { name, on_message_added: self.on_message_added },
        )
    }
}

/// The folder a watch invocation actually watches: the operator's explicit
/// choice if one was given, otherwise the account's configured folder,
/// otherwise the inbox.
pub fn effective_folder<'a>(
    explicit: Option<&'a String>,
    account: &'a TomlAccountConfig,
) -> (folder: &'a str)
    ensures
        folder@ == match explicit {
            Some(f) => f@,
            None => match account.folder {
                Some(f) => f@,
                None => "INBOX"@,
            },
        },
{
    match explicit {
        Some(f) => f.as_str(),
        None => match &account.folder {
            Some(f) => f.as_str(),
            None => "INBOX",
        },
    }
}

/// The secret-resolution pass is idempotent: once a configuration has been
/// resolved for an account name, resolving it again for the same name
/// changes nothing.
pub proof fn lemma_configure_idempotent(
    first: TomlAccountConfig,
    second: TomlAccountConfig,
    third: TomlAccountConfig,
    account_name: Seq<char>,
)
    requires
        secrets_resolved(first, second, account_name),
        secrets_resolved(second, third, account_name),
    ensures
        third == second,
{
    assert(backend_has_no_placeholder(second.backend));
}

/// A resolved configuration holds no placeholder left to rewrite, and a
/// configuration without placeholders is left exactly as it is.
pub proof fn lemma_configure_resolves_placeholders(
    pre: TomlAccountConfig,
    post: TomlAccountConfig,
    account_name: Seq<char>,
)
    requires
        secrets_resolved(pre, post, account_name),
    ensures
        backend_has_no_placeholder(post.backend),
        backend_has_no_placeholder(pre.backend) ==> post == pre,
{
}

} // verus!
