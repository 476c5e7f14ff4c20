use parakeet_bot::config::{
    config_path, parse_error, parse_guild_id, plan_read, write_guild_id, Config, DevConfig,
    FileRead, LoggingConfig, NotifyConfig, ReadPlan,
};
use parakeet_bot::error::ConfigError;
use std::collections::HashSet;

fn with_token(token: &str) -> Config {
    Config::new(
        token.to_string(),
        LoggingConfig { console_debug: true, logs_enabled: false, log_dir: "var/log".to_string() },
        DevConfig {
            dev_guild: Some(77),
            notifications: NotifyConfig { enabled: true, add_owners: false, userids: vec![1, 2] },
        },
    )
}

fn set(ids: &[u64]) -> HashSet<u64> {
    ids.iter().copied().collect()
}

#[test]
fn default_settings() {
    let config = Config::default();
    assert!(!config.console_debug());
    assert!(config.logs_enabled());
    assert_eq!(config.log_dir(), "logs");
    assert_eq!(config.dev_guild(), None);
    assert_eq!(config.notify_list(&vec![1, 2]), set(&[]));
    assert_eq!(
        config.token(),
        Err(ConfigError::InvalidConfig { reason: "Missing discord token".to_string() })
    );
}

#[test]
fn getters_give_what_was_set() {
    let config = with_token("abc");
    assert!(config.console_debug());
    assert!(!config.logs_enabled());
    assert_eq!(config.log_dir(), "var/log");
    assert_eq!(config.dev_guild(), Some(77));
}

#[test]
fn a_token_must_be_there_and_must_not_be_the_placeholder() {
    assert_eq!(with_token("abc.def").token(), Ok(&"abc.def".to_string()));
    for bad in ["", "put_token_here", "xput_token_herex", "put_token_here "] {
        assert_eq!(
            with_token(bad).token(),
            Err(ConfigError::InvalidConfig { reason: "Missing discord token".to_string() }),
            "{bad:?}"
        );
    }
    assert!(with_token("put_token_her").token().is_ok());
}

#[test]
fn notify_list_by_its_switches() {
    let owners = vec![10, 11, 10];
    let off = NotifyConfig { enabled: false, add_owners: true, userids: vec![1] };
    assert_eq!(off.notify_list(&owners), set(&[]));
    let listed = NotifyConfig { enabled: true, add_owners: false, userids: vec![1, 2, 1] };
    assert_eq!(listed.notify_list(&owners), set(&[1, 2]));
    let both = NotifyConfig { enabled: true, add_owners: true, userids: vec![1, 10] };
    assert_eq!(both.notify_list(&owners), set(&[1, 10, 11]));
    let owners_only = NotifyConfig { enabled: true, add_owners: true, userids: vec![] };
    assert_eq!(owners_only.notify_list(&owners), set(&[10, 11]));
    assert_eq!(with_token("abc").notify_list(&owners), set(&[1, 2]));
}

#[test]
fn a_file_with_text_is_parsed() {
    assert_eq!(config_path(), "config.toml");
    assert_eq!(plan_read(FileRead::Content("discord_token = \"x\"".to_string())), ReadPlan::Parse);
    assert_eq!(plan_read(FileRead::Content(" x ".to_string())), ReadPlan::Parse);
}

#[test]
fn an_empty_file_is_rewritten() {
    for content in ["", "  \n\t\n"] {
        assert_eq!(
            plan_read(FileRead::Content(content.to_string())),
            ReadPlan::WriteDefault(ConfigError::InvalidConfig {
                reason: "Empty config file! Rewriting config.toml ...".to_string()
            })
        );
    }
}

#[test]
fn a_missing_file_is_created() {
    let read = FileRead::Failed { not_found: true, description: "No such file".to_string() };
    assert_eq!(
        plan_read(read),
        ReadPlan::WriteDefault(ConfigError::MissingConfig {
            action_msg: "Creating config.toml...".to_string()
        })
    );
}

#[test]
fn any_other_failure_is_reported_and_nothing_is_written() {
    let read = FileRead::Failed { not_found: false, description: "Permission denied".to_string() };
    assert_eq!(plan_read(read), ReadPlan::Fail(ConfigError::IoError("Permission denied".to_string())));
}

#[test]
fn a_parse_failure_shows_what_the_parser_said() {
    assert_eq!(
        parse_error("logging.log_dir: missing field".to_string()),
        ConfigError::InvalidConfig { reason: "logging.log_dir: missing field".to_string() }
    );
}

#[test]
fn guild_setting_is_read() {
    assert_eq!(parse_guild_id(""), Ok(None));
    assert_eq!(parse_guild_id("123"), Ok(Some(123)));
    assert_eq!(parse_guild_id("0"), Ok(Some(0)));
    assert_eq!(parse_guild_id("18446744073709551615"), Ok(Some(u64::MAX)));
    for bad in ["abc", "18446744073709551616", " 1", "-1", "1.5"] {
        assert_eq!(parse_guild_id(bad), Err("not u64".to_string()), "{bad:?}");
    }
}

#[test]
fn guild_setting_reads_back() {
    assert_eq!(write_guild_id(None), "");
    assert_eq!(write_guild_id(Some(0)), "0");
    assert_eq!(write_guild_id(Some(1234567890123)), "1234567890123");
    for guild in [None, Some(0), Some(7), Some(u64::MAX)] {
        assert_eq!(parse_guild_id(&write_guild_id(guild)), Ok(guild));
    }
}
