//! The command surface's decision logic.

use mirador::backend::{
    BackendConfig, ImapAuthConfig, ImapConfig, MaildirConfig, SecretRef,
};
use mirador::cli::{
    Cli, ConfigureAccountCommand, ConfigureStep, DoctorAccountCommand, MiradorCommand,
};
use mirador::watch::WatchCommand;

fn imap_backend() -> BackendConfig {
    BackendConfig::Imap(ImapConfig {
        host: "imap.example.org".to_string(),
        port: 993,
        login: "me".to_string(),
        auth: ImapAuthConfig::Password(SecretRef::Undefined),
    })
}

fn maildir_backend() -> BackendConfig {
    BackendConfig::Maildir(MaildirConfig { root_dir: "/mail".to_string() })
}

#[test]
fn configuring_imap_prompts_for_the_password() {
    let command = ConfigureAccountCommand { account: None, reset: false };
    assert_eq!(
        command.plan(&imap_backend()),
        ConfigureStep::PromptImapPassword { reset: false }
    );
    let command = ConfigureAccountCommand { account: None, reset: true };
    assert_eq!(
        command.plan(&imap_backend()),
        ConfigureStep::PromptImapPassword { reset: true }
    );
}

#[test]
fn configuring_maildir_has_nothing_to_do() {
    let command = ConfigureAccountCommand { account: Some("personal".to_string()), reset: true };
    assert_eq!(command.plan(&maildir_backend()), ConfigureStep::NothingToConfigure);
}

#[test]
fn doctor_notice_names_the_backend_kind() {
    let command = DoctorAccountCommand { account: None };
    assert_eq!(command.check_notice(&imap_backend()), "Checking IMAP integrity…");
    assert_eq!(command.check_notice(&maildir_backend()), "Checking Maildir integrity…");
}

#[test]
fn command_set_carries_the_parsed_choices() {
    let cli = Cli {
        command: Some(MiradorCommand::Watch(WatchCommand {
            account: Some("personal".to_string()),
            folder: Some("INBOX".to_string()),
        })),
        config_paths: vec!["/home/me/.config/mirador/config.toml".to_string()],
        debug: false,
        trace: false,
    };
    match cli.command {
        Some(MiradorCommand::Watch(watch)) => {
            assert_eq!(watch.account.as_deref(), Some("personal"));
            assert_eq!(watch.folder.as_deref(), Some("INBOX"));
        }
        _ => panic!("the watch command was constructed"),
    }
    assert!(!cli.debug && !cli.trace);
    assert_eq!(cli.config_paths.len(), 1);
}
