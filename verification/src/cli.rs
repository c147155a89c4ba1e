//! The command-line surface: the top-level command set and the account
//! commands that are not the watch itself.
//!
//! Parsing the actual argument vector, loading the configuration files and
//! performing the terminal, keyring and backend I/O all happen outside the
//! library; these types carry the parsed choices, and the plan functions
//! decide what has to be done for them.

use vstd::prelude::*;

use crate::backend::{BackendConfig, BackendKind, ImapAuthConfig};
use crate::watch::WatchCommand;

verus! {

/// Configure an account: define or reset the keyring-managed secrets of its
/// backend.
#[derive(Debug)]
pub struct ConfigureAccountCommand {
    /// The account to configure; absent, the account flagged as the default
    /// is used.
    pub account: Option<String>,
    /// Reset keyring secrets: force them to be prompted again and saved back
    /// to the keyring.
    pub reset: bool,
}

/// Check up the given account: whether the configuration is valid, the
/// backend can be created and its session works.
#[derive(Debug)]
pub struct DoctorAccountCommand {
    /// The account to check; absent, the account flagged as the default is
    /// used.
    pub account: Option<String>,
}

/// The top-level command set.
#[derive(Debug)]
pub enum MiradorCommand {
    /// Check up an account.
    Doctor(DoctorAccountCommand),
    /// Configure an account's secrets.
    Configure(ConfigureAccountCommand),
    /// Watch a mailbox of an account.
    Watch(WatchCommand),
    /// Generate the manual pages.
    Manual,
    /// Generate shell completion scripts.
    Completion,
}

/// The parsed command line.
#[derive(Debug)]
pub struct Cli {
    /// The command to run; absent, the resolved configuration is shown.
    pub command: Option<MiradorCommand>,
    /// Overrides for the configuration file path: the first existing file is
    /// loaded and the others are merged into it by the store.
    pub config_paths: Vec<String>,
    /// Enable logs with span traces.
    pub debug: bool,
    /// Enable verbose logs with backtraces.
    pub trace: bool,
}

/// What configuring an account's secrets requires of the hosting process.
#[derive(Clone, Copy, Debug, PartialEq, Eq, Structural)]
pub enum ConfigureStep {
    /// The backend authenticates with a password: prompt for it and save it
    /// behind its keyring reference, first deleting the stored one when a
    /// reset was asked for.
    PromptImapPassword {
        /// Whether the stored secret is reset before prompting.
        reset: bool,
    },
    /// The backend holds no secret to configure; nothing to do.
    NothingToConfigure,
}

impl ConfigureAccountCommand {
    /// Decide what configuring the resolved account requires: only the IMAP
    /// backend holds secrets; the Maildir backend has nothing to configure.
    pub fn plan(&self, backend: &BackendConfig) -> (step: ConfigureStep)
        ensures
            step == match backend {
                BackendConfig::Imap(imap) => match imap.auth {
                    ImapAuthConfig::Password(_) => ConfigureStep::PromptImapPassword {
                        reset: self.reset,
                    },
                },
                BackendConfig::Maildir(_) => ConfigureStep::NothingToConfigure,
            },
    {
        match backend {
            BackendConfig::Imap(imap) => match &imap.auth {
                ImapAuthConfig::Password(_) => ConfigureStep::PromptImapPassword {
                    reset: self.reset,
                },
            },
            BackendConfig::Maildir(_) => ConfigureStep::NothingToConfigure,
        }
    }
}

impl DoctorAccountCommand {
    /// The one-line notice printed before the integrity check of the
    /// resolved account's backend.
    pub fn check_notice(&self, backend: &BackendConfig) -> (notice: &'static str)
        ensures
            backend.kind_spec() is Imap ==> notice@ == "Checking IMAP integrity…"@,
            backend.kind_spec() is Maildir ==> notice@ == "Checking Maildir integrity…"@,
    {
        match backend.kind() {
            BackendKind::Imap => "Checking IMAP integrity…",
            BackendKind::Maildir => "Checking Maildir integrity…",
        }
    }
}

} // verus!
