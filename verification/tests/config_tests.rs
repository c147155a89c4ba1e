//! Account resolution, store construction and secret resolution.

use mirador::account::{effective_folder, AccountConfig, TomlAccountConfig};
use mirador::backend::{
    check_backend_supported, BackendConfig, BackendKind, BackendSupport, ImapAuthConfig,
    ImapConfig, KeyringEntryRef, MaildirConfig, SecretRef,
};
use mirador::config::{AccountEntry, TomlConfig};
use mirador::error::{BackendBuildError, ConfigResolutionError};

fn maildir_account(default: Option<bool>, folder: Option<&str>) -> TomlAccountConfig {
    TomlAccountConfig {
        default,
        folder: folder.map(|f| f.to_string()),
        backend: BackendConfig::Maildir(MaildirConfig { root_dir: "/home/me/Mail".to_string() }),
        on_message_added: None,
    }
}

fn imap_account(default: Option<bool>, secret: SecretRef) -> TomlAccountConfig {
    TomlAccountConfig {
        default,
        folder: None,
        backend: BackendConfig::Imap(ImapConfig {
            host: "imap.example.org".to_string(),
            port: 993,
            login: "me@example.org".to_string(),
            auth: ImapAuthConfig::Password(secret),
        }),
        on_message_added: None,
    }
}

fn store(entries: Vec<AccountEntry>) -> TomlConfig {
    TomlConfig::from_entries(entries).expect("names are unique")
}

#[test]
fn no_default_account_fails() {
    let config = store(vec![
        AccountEntry { name: "personal".to_string(), config: maildir_account(None, None) },
        AccountEntry { name: "work".to_string(), config: maildir_account(Some(false), None) },
    ]);
    assert_eq!(config.resolve(None).unwrap_err(), ConfigResolutionError::NoDefaultAccount);
}

#[test]
fn ambiguous_default_account_fails() {
    let config = store(vec![
        AccountEntry { name: "personal".to_string(), config: maildir_account(Some(true), None) },
        AccountEntry { name: "work".to_string(), config: maildir_account(Some(true), None) },
    ]);
    assert_eq!(config.resolve(None).unwrap_err(), ConfigResolutionError::NoDefaultAccount);
}

#[test]
fn single_default_account_resolves() {
    let config = store(vec![
        AccountEntry { name: "personal".to_string(), config: maildir_account(Some(false), None) },
        AccountEntry { name: "work".to_string(), config: maildir_account(Some(true), None) },
    ]);
    let (name, account) = config.resolve(None).expect("one default is flagged");
    assert_eq!(name, "work");
    assert_eq!(account.default, Some(true));
}

#[test]
fn explicit_name_resolves_exactly() {
    let config = store(vec![
        AccountEntry { name: "personal".to_string(), config: maildir_account(Some(true), None) },
        AccountEntry { name: "work".to_string(), config: maildir_account(None, Some("Sent")) },
    ]);
    let wanted = "work".to_string();
    let (name, account) = config.resolve(Some(&wanted)).expect("the name exists");
    assert_eq!(name, "work");
    assert_eq!(account.folder.as_deref(), Some("Sent"));
}

#[test]
fn unknown_name_fails_with_not_found() {
    let config = store(vec![AccountEntry {
        name: "personal".to_string(),
        config: maildir_account(Some(true), None),
    }]);
    let wanted = "nonexistent".to_string();
    assert_eq!(config.resolve(Some(&wanted)).unwrap_err(), ConfigResolutionError::NotFound);
}

#[test]
fn lookup_is_case_sensitive() {
    let config = store(vec![AccountEntry {
        name: "personal".to_string(),
        config: maildir_account(Some(true), None),
    }]);
    let wanted = "Personal".to_string();
    assert_eq!(config.resolve(Some(&wanted)).unwrap_err(), ConfigResolutionError::NotFound);
}

#[test]
fn empty_store_has_no_default() {
    let config = TomlConfig::new();
    assert_eq!(config.len(), 0);
    assert_eq!(config.resolve(None).unwrap_err(), ConfigResolutionError::NoDefaultAccount);
}

#[test]
fn duplicate_names_reject_the_store() {
    let entries = vec![
        AccountEntry { name: "personal".to_string(), config: maildir_account(Some(true), None) },
        AccountEntry { name: "personal".to_string(), config: maildir_account(None, None) },
    ];
    assert!(TomlConfig::from_entries(entries).is_none());
}

#[test]
fn default_watch_scenario_resolves_personal_inbox() {
    // Account set { "personal": { is_default: true, folder: "INBOX", backend: Maildir } }:
    // watching with no explicit account name resolves to "personal" and
    // begins watching "INBOX".
    let config = store(vec![AccountEntry {
        name: "personal".to_string(),
        config: maildir_account(Some(true), Some("INBOX")),
    }]);
    let (name, account) = config.resolve(None).expect("personal is the default");
    assert_eq!(name, "personal");
    assert!(matches!(account.backend, BackendConfig::Maildir(_)));
    assert_eq!(effective_folder(None, account), "INBOX");
}

#[test]
fn effective_folder_falls_back_to_inbox() {
    let account = maildir_account(Some(true), None);
    assert_eq!(effective_folder(None, &account), "INBOX");
}

#[test]
fn effective_folder_prefers_explicit_choice() {
    let account = maildir_account(Some(true), Some("Archive"));
    let explicit = "Drafts".to_string();
    assert_eq!(effective_folder(Some(&explicit), &account), "Drafts");
    assert_eq!(effective_folder(None, &account), "Archive");
}

#[test]
fn resolve_secrets_rewrites_empty_placeholder() {
    let mut account = imap_account(Some(true), SecretRef::Undefined);
    account.configure("personal").expect("secret resolution succeeds");
    match &account.backend {
        BackendConfig::Imap(imap) => {
            let ImapAuthConfig::Password(secret) = &imap.auth;
            assert_eq!(
                *secret,
                SecretRef::Keyring(KeyringEntryRef {
                    account: "personal".to_string(),
                    backend: BackendKind::Imap,
                })
            );
            assert_eq!(imap.host, "imap.example.org");
            assert_eq!(imap.port, 993);
            assert_eq!(imap.login, "me@example.org");
        }
        BackendConfig::Maildir(_) => panic!("the backend kind must not change"),
    }
}

#[test]
fn resolve_secrets_leaves_defined_secrets_alone() {
    let mut account = imap_account(Some(true), SecretRef::Raw("hunter2".to_string()));
    let before = account.clone();
    account.configure("personal").expect("secret resolution succeeds");
    assert_eq!(account, before);
}

#[test]
fn resolve_secrets_is_no_op_for_maildir() {
    let mut account = maildir_account(Some(true), Some("INBOX"));
    let before = account.clone();
    account.configure("personal").expect("secret resolution succeeds");
    assert_eq!(account, before);
}

#[test]
fn resolve_secrets_is_idempotent() {
    let mut account = imap_account(Some(true), SecretRef::Undefined);
    account.configure("personal").expect("first pass succeeds");
    let after_first = account.clone();
    account.configure("personal").expect("second pass succeeds");
    assert_eq!(account, after_first);
}

#[test]
fn into_account_config_splits_backend_and_runtime_config() {
    let account = maildir_account(Some(true), Some("INBOX"));
    let backend_before = account.backend.clone();
    let hook_before = account.on_message_added.clone();
    let (backend, runtime): (BackendConfig, AccountConfig) =
        account.into_account_config("personal".to_string());
    assert_eq!(backend, backend_before);
    assert_eq!(runtime.name, "personal");
    assert_eq!(runtime.on_message_added, hook_before);
}

#[test]
fn backend_kind_and_display() {
    let maildir = BackendConfig::Maildir(MaildirConfig { root_dir: "/mail".to_string() });
    let imap = BackendConfig::Imap(ImapConfig {
        host: "h".to_string(),
        port: 143,
        login: "l".to_string(),
        auth: ImapAuthConfig::Password(SecretRef::Undefined),
    });
    assert_eq!(maildir.kind(), BackendKind::Maildir);
    assert_eq!(imap.kind(), BackendKind::Imap);
    assert_eq!(BackendKind::Imap.display(), "IMAP");
    assert_eq!(BackendKind::Maildir.display(), "Maildir");
}

#[test]
fn unsupported_backend_is_rejected_by_the_selector() {
    let imap = BackendConfig::Imap(ImapConfig {
        host: "h".to_string(),
        port: 143,
        login: "l".to_string(),
        auth: ImapAuthConfig::Password(SecretRef::Undefined),
    });
    let support = BackendSupport { imap: false, maildir: true };
    assert_eq!(
        check_backend_supported(&imap, &support).unwrap_err(),
        BackendBuildError::UnsupportedBackend
    );
    let maildir = BackendConfig::Maildir(MaildirConfig { root_dir: "/mail".to_string() });
    assert_eq!(check_backend_supported(&maildir, &support).unwrap(), BackendKind::Maildir);
}

#[test]
fn project_name_is_mirador() {
    assert_eq!(TomlConfig::project_name(), "mirador");
}

#[test]
fn error_messages_name_the_condition() {
    assert_eq!(
        ConfigResolutionError::NotFound.message(),
        "account not found in the configuration"
    );
    assert_eq!(
        ConfigResolutionError::NoDefaultAccount.message(),
        "the configuration does not flag exactly one default account"
    );
    assert_eq!(
        BackendBuildError::AuthenticationFailed.message(),
        "cannot authenticate against the backend"
    );
    assert_eq!(BackendBuildError::ConnectionFailed.message(), "cannot connect to the backend");
    assert_eq!(
        BackendBuildError::UnsupportedBackend.message(),
        "the configured backend kind is not supported by this build"
    );
}
