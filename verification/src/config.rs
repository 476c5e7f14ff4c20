//! Configuration for running the bot: what the settings are, what they
//! allow, and what to do with the file they are read from.

use crate::error::ConfigError;
use crate::scan::{
    all_blank, contains, contains_text, is_all_blank, number_of, occurs_at, parse_u64,
};
use crate::text::{concat3, decimal, push_decimal};
use std::collections::HashSet;
use vstd::prelude::*;
use vstd::string::*;

verus! {

/// Settings for logging.
#[derive(Debug, PartialEq)]
pub struct LoggingConfig {
    /// Print debug traces to console?
    pub console_debug: bool,
    /// Enable writing to log file?
    pub logs_enabled: bool,
    /// Directory to store log files
    pub log_dir: String,
}

/// Configs for notification behavior when encountering unexpected errors.
#[derive(Debug, PartialEq)]
pub struct NotifyConfig {
    /// Enable this behavior or not. (bot sends a private message)
    pub enabled: bool,
    /// Whether to automatically add owners to the notify list.
    pub add_owners: bool,
    /// Additional users to add to the notify list.
    pub userids: Vec<u64>,
}

/// Optional configs to enable developer-specific behavior.
#[derive(Debug, PartialEq)]
pub struct DevConfig {
    /// Optional guild to automatically update commands quickly.
    pub dev_guild: Option<u64>,
    /// See [NotifyConfig]
    pub notifications: NotifyConfig,
}

/// Settings that modify bot behavior.
#[derive(Debug, PartialEq)]
pub struct Config {
    discord_token: String,
    logging: LoggingConfig,
    dev_utils: DevConfig,
}

/// The users that a notify configuration names, given the owners of the
/// bot: nobody while it is off; else the listed users, and the owners too
/// if it says so.
pub open spec fn notify_set(notifications: NotifyConfig, owners: Seq<u64>) -> Set<u64> {
    if !notifications.enabled {
        Set::empty()
    } else if notifications.add_owners {
        owners.to_set().union(notifications.userids@.to_set())
    } else {
        notifications.userids@.to_set()
    }
}

/// Puts all of `ids` into `set`.
fn insert_all(set: &mut HashSet<u64>, ids: &Vec<u64>)
    ensures
        final(set)@ == old(set)@.union(ids@.to_set()),
{
    broadcast use vstd::std_specs::hash::group_hash_axioms;

    let mut index: usize = 0;
    while index < ids.len()
        invariant
            0 <= index <= ids.len(),
            set@ == old(set)@.union(ids@.take(index as int).to_set()),
        decreases ids.len() - index,
    {
        let ghost before = ids@.take(index as int);
        let ghost after = ids@.take(index + 1);
        set.insert(ids[index]);
        assert forall|id: u64| after.to_set().contains(id) <==> before.to_set().contains(id) || id
            == ids@[index as int] by {
            if id == ids@[index as int] {
                assert(after[index as int] == id);
            }
        }
        index = index + 1;
    }
    assert(ids@.take(ids@.len() as int) =~= ids@);
}

impl NotifyConfig {
    /// Construct a bug notification notify list based on the config and the
    /// owners of the bot.
    pub fn notify_list(&self, owners: &Vec<u64>) -> (list: HashSet<u64>)
        ensures
            list@ == notify_set(*self, owners@),
    {
        let mut list: HashSet<u64> = HashSet::new();
        // If disabled, don't add anyone to the list.
        if !self.enabled {
            return list;
        }
        // Add bot owners if enabled
        if self.add_owners {
            insert_all(&mut list, owners);
        }
        // Add users in config
        insert_all(&mut list, &self.userids);
        list
    }
}

impl Config {
    /// The token that the default settings hold in place of a real one.
    pub open spec fn placeholder_token() -> Seq<char> {
        "put_token_here"@
    }

    /// The token.
    pub closed spec fn token_text(self) -> Seq<char> {
        self.discord_token@
    }

    /// The settings for logging.
    pub closed spec fn logging(self) -> LoggingConfig {
        self.logging
    }

    /// The settings for developers.
    pub closed spec fn dev_utils(self) -> DevConfig {
        self.dev_utils
    }

    /// Settings with the given parts.
    pub fn new(discord_token: String, logging: LoggingConfig, dev_utils: DevConfig) -> (config:
        Self)
        ensures
            config.token_text() == discord_token@,
            config.logging() == logging,
            config.dev_utils() == dev_utils,
    {
        Config { discord_token, logging, dev_utils }
    }

    /// Whether `token` can be a real token: it is not empty and does not
    /// hold the placeholder.
    pub open spec fn usable_token(token: Seq<char>) -> bool {
        token.len() > 0 && !contains_text(token, Config::placeholder_token())
    }

    /// Basic sanity check for if a token was given.
    pub fn token(&self) -> (token: Result<&String, ConfigError>)
        ensures
            Config::usable_token(self.token_text()) ==> token is Ok && token->Ok_0@
                == self.token_text(),
            !Config::usable_token(self.token_text()) ==> token is Err && token->Err_0
                is InvalidConfig && token->Err_0->InvalidConfig_reason@
                == "Missing discord token"@,
    {
        let given_token = &self.discord_token;
        let is_empty = given_token.as_str().is_empty();
        let contains_default = contains(given_token.as_str(), "put_token_here");
        let sanity_check: bool = !is_empty && !contains_default;
        if sanity_check {
            Ok(&self.discord_token)
        } else {
            Err(ConfigError::InvalidConfig { reason: "Missing discord token".to_owned() })
        }
    }

    /// Construct a bug notification notify list based on the config and the
    /// owners of the bot.
    pub fn notify_list(&self, owners: &Vec<u64>) -> (list: HashSet<u64>)
        ensures
            list@ == notify_set(self.dev_utils().notifications, owners@),
    {
        self.dev_utils.notifications.notify_list(owners)
    }

    /// Getter for log_dir.
    pub fn log_dir(&self) -> (dir: &str)
        ensures
            dir@ == self.logging().log_dir@,
    {
        self.logging.log_dir.as_str()
    }

    /// Is debug mode enabled for console logs
    pub fn console_debug(&self) -> (enabled: bool)
        ensures
            enabled == self.logging().console_debug,
    {
        self.logging.console_debug
    }

    /// Is file logging enabled.
    pub fn logs_enabled(&self) -> (enabled: bool)
        ensures
            enabled == self.logging().logs_enabled,
    {
        self.logging.logs_enabled
    }

    /// The guild on which commands are registered first, if any.
    pub fn dev_guild(&self) -> (guild: Option<u64>)
        ensures
            guild == self.dev_utils().dev_guild,
    {
        self.dev_utils.dev_guild
    }
}

impl Default for Config {
    fn default() -> (config: Self)
        ensures
            config.token_text() == Config::placeholder_token(),
            !Config::usable_token(config.token_text()),
            !config.logging().console_debug,
            config.logging().logs_enabled,
            config.logging().log_dir@ == "logs"@,
            config.dev_utils().dev_guild is None,
            !config.dev_utils().notifications.enabled,
            config.dev_utils().notifications.add_owners,
            config.dev_utils().notifications.userids@ == Seq::<u64>::empty(),
    {
        let config = Config {
            discord_token: "put_token_here".to_owned(),
            logging: LoggingConfig {
                console_debug: false,
                logs_enabled: true,
                log_dir: "logs".to_owned(),
            },
            dev_utils: DevConfig {
                dev_guild: None,
                notifications: NotifyConfig {
                    enabled: false,
                    add_owners: true,
                    userids: Vec::new(),
                },
            },
        };
        proof {
            let token = Config::placeholder_token();
            assert(token.subrange(0, token.len() as int) =~= token);
            assert(occurs_at(token, token, 0));
        }
        config
    }
}

/// What reading the settings file gave.
#[derive(Debug, PartialEq)]
pub enum FileRead {
    /// The file was read: this is what it holds.
    Content(String),
    /// The file could not be read.
    Failed {
        /// Whether the file does not exist.
        not_found: bool,
        /// The description of the failure.
        description: String,
    },
}

/// What to do once the settings file was read.
#[derive(Debug, PartialEq)]
pub enum ReadPlan {
    /// The file holds text: parse it.
    Parse,
    /// Write the default settings to the file, then report this error.
    WriteDefault(ConfigError),
    /// Report this error and leave the file alone.
    Fail(ConfigError),
}

/// The path of the settings file.
pub fn config_path() -> (path: &'static str)
    ensures
        path@ == "config.toml"@,
{
    "config.toml"
}

/// What to do once the settings file was read. A file that holds text is
/// parsed. A file that is empty but for white space, or that does not exist,
/// is written with the default settings, and the start fails with a word on
/// what was done. Any other failure is reported as it is, and nothing is
/// written.
pub fn plan_read(read: FileRead) -> (plan: ReadPlan)
    ensures
        match read {
            FileRead::Content(content) => if all_blank(content@) {
                plan matches ReadPlan::WriteDefault(ConfigError::InvalidConfig { reason })
                    && reason@ == "Empty config file! Rewriting "@ + "config.toml"@ + " ..."@
            } else {
                plan is Parse
            },
            FileRead::Failed { not_found, description } => if not_found {
                plan matches ReadPlan::WriteDefault(ConfigError::MissingConfig { action_msg })
                    && action_msg@ == "Creating "@ + "config.toml"@ + "..."@
            } else {
                plan matches ReadPlan::Fail(ConfigError::IoError(shown)) && shown@ == description@
            },
        },
{
    match read {
        FileRead::Content(content) => {
            if is_all_blank(content.as_str()) {
                ReadPlan::WriteDefault(
                    ConfigError::InvalidConfig {
                        reason: concat3("Empty config file! Rewriting ", config_path(), " ..."),
                    },
                )
            } else {
                ReadPlan::Parse
            }
        },
        FileRead::Failed { not_found, description } => {
            if not_found {
                ReadPlan::WriteDefault(
                    ConfigError::MissingConfig {
                        action_msg: concat3("Creating ", config_path(), "..."),
                    },
                )
            } else {
                ReadPlan::Fail(ConfigError::IoError(description))
            }
        },
    }
}

/// The error for settings that could not be parsed: it shows what the
/// parser said.
pub fn parse_error(description: String) -> (error: ConfigError)
    ensures
        error matches ConfigError::InvalidConfig { reason } && reason@ == description@,
{
    ConfigError::InvalidConfig { reason: description }
}

/// The guild that a setting names: none for the empty text, the number for
/// a number.
pub open spec fn guild_of(text: Seq<char>) -> Option<Option<u64>> {
    if text.len() == 0 {
        Some(None)
    } else {
        match number_of(text) {
            Some(id) => Some(Some(id)),
            None => None,
        }
    }
}

/// Reads the setting for the developers' guild: the empty text means none,
/// a number means that guild, anything else is refused as no number.
pub fn parse_guild_id(text: &str) -> (guild: Result<Option<u64>, String>)
    ensures
        guild is Ok == guild_of(text@) is Some,
        guild matches Ok(id) ==> Some(id) == guild_of(text@),
        guild matches Err(why) ==> why@ == "not u64"@,
{
    if text.is_empty() {
        return Ok(None);
    }
    match parse_u64(text) {
        Some(id) => Ok(Some(id)),
        None => Err("not u64".to_owned()),
    }
}

/// The text that settings hold for the developers' guild: the number of the
/// guild, or nothing for none.
pub open spec fn guild_text(guild: Option<u64>) -> Seq<char> {
    match guild {
        Some(id) => decimal(id as nat),
        None => Seq::empty(),
    }
}

/// Writes the setting for the developers' guild.
pub fn write_guild_id(guild: Option<u64>) -> (text: String)
    ensures
        text@ == guild_text(guild),
{
    let mut text = String::new();
    if let Some(id) = guild {
        push_decimal(&mut text, id);
    }
    text
}

} // verus!
