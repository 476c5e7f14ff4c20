//! The errors of this crate and the text that each one shows.

use crate::duration::{duration_secs, duration_text, format_duration};
use crate::text::{as_text, concat2, concat3, format_opt, lemma_filled_between};
use core::time::Duration;
use vstd::prelude::*;
use vstd::string::*;

verus! {

/// These are "user-facing" errors that are shown back to them.
/// These do not indicate unexpected behavior.
#[derive(Debug, PartialEq)]
#[allow(inconsistent_fields)]
pub enum UserError {
    /// Could not find the user's voice channel.
    NotInVoice,
    /// Could not find the user's guild.
    NotInGuild,
    /// There was no active call in this guild.
    NoActiveCall,
    /// The search failed for some reason.
    SearchFailed {
        /// Why the search failed
        reason: String,
    },
    /// User tried to use an unsupported platform.
    UnsupportedPlatform,
    /// User left out a required subcommand
    MissingSubcommand {
        /// A list of subcommands
        subcmds: String,
    },
    /// User gave input that failed to parse.
    BadArgs {
        /// The specific part that was problematic
        input: Option<String>,
    },
    /// User tried to invoke command while it was still on cooldown.
    OnCooldown {
        /// Time remaining until cooldown is over
        remaining_cooldown: Duration,
    },
    /// Bot needs permissions that it doesn't have.
    MissingBotPermissions {
        /// List of missing permissions, as shown to the user
        missing_permissions: String,
    },
    /// User needs permissions that it doesn't have.
    MissingUserPermissions {
        /// List of missing permissions, can be `None` if fetching permissions failed.
        missing_permissions: Option<String>,
    },
    /// A user, that's not the owner, tried to use an owner-only command.
    NotOwner,
    /// A user tried to use a guild-only command in a dm channel.
    GuildOnly,
    /// A user tried to use a pm-only command in a guild channel.
    DmOnly,
    /// A user tried to use a nsfw-only command in a non-nsfw channel.
    NsfwOnly,
    /// Queue already empty.
    EmptyQueue,
}

impl UserError {
    /// The text shown to the user.
    pub open spec fn text(self) -> Seq<char> {
        match self {
            UserError::NotInVoice => "Couldn't find you in a voice channel!"@,
            UserError::NotInGuild => "Couldn't find your server!"@,
            UserError::NoActiveCall => "No active call."@,
            UserError::SearchFailed { reason } => "Search failed: "@ + reason@,
            UserError::UnsupportedPlatform => "Unsupported platform, sorry! :("@,
            UserError::MissingSubcommand { subcmds } => "Missing a subcommand: "@ + subcmds@,
            UserError::BadArgs { input } => match input {
                Some(part) => "Failed to parse '"@ + part@ + "'"@,
                None => "Failed to parse input"@,
            },
            UserError::OnCooldown { remaining_cooldown } => "Cooldown: "@ + duration_text(
                duration_secs(remaining_cooldown) as nat,
            ),
            UserError::MissingBotPermissions { missing_permissions } => "Missing permissions: "@
                + missing_permissions@ + ". Contact server admin to fix."@,
            UserError::MissingUserPermissions { missing_permissions } => match missing_permissions {
                Some(list) => "You need the permissions: '"@ + list@ + "'"@,
                None => "You need permissions."@,
            },
            UserError::NotOwner => "Only the owner can use that command!"@,
            UserError::GuildOnly => "Only usable in a server."@,
            UserError::DmOnly => "Only usable in private messages."@,
            UserError::NsfwOnly => "Only usable in a NSFW channel. ( ͡° ͜ʖ ͡°)"@,
            UserError::EmptyQueue => "Nothing in the queue!"@,
        }
    }

    /// Renders the error as the user sees it.
    pub fn message(&self) -> (text: String)
        ensures
            text@ == self.text(),
    {
        match self {
            UserError::NotInVoice => "Couldn't find you in a voice channel!".to_owned(),
            UserError::NotInGuild => "Couldn't find your server!".to_owned(),
            UserError::NoActiveCall => "No active call.".to_owned(),
            UserError::SearchFailed { reason } => concat2("Search failed: ", reason.as_str()),
            UserError::UnsupportedPlatform => "Unsupported platform, sorry! :(".to_owned(),
            UserError::MissingSubcommand { subcmds } => concat2(
                "Missing a subcommand: ",
                subcmds.as_str(),
            ),
            UserError::BadArgs { input } => {
                proof {
                    reveal_strlit("Failed to parse '{}'");
                    reveal_strlit("Failed to parse '");
                    reveal_strlit("'");
                    assert("Failed to parse '{}'"@ =~= "Failed to parse '"@ + seq!['{', '}']
                        + "'"@);
                    if let Some(part) = input {
                        lemma_filled_between("Failed to parse '"@, "'"@, part@);
                    }
                }
                format_opt(as_text(input), "Failed to parse '{}'", "Failed to parse input")
            },
            UserError::OnCooldown { remaining_cooldown } => {
                let shown = format_duration(remaining_cooldown);
                concat2("Cooldown: ", shown.as_str())
            },
            UserError::MissingBotPermissions { missing_permissions } => concat3(
                "Missing permissions: ",
                missing_permissions.as_str(),
                ". Contact server admin to fix.",
            ),
            UserError::MissingUserPermissions { missing_permissions } => {
                proof {
                    reveal_strlit("You need the permissions: '{}'");
                    reveal_strlit("You need the permissions: '");
                    reveal_strlit("'");
                    assert("You need the permissions: '{}'"@ =~= "You need the permissions: '"@
                        + seq!['{', '}'] + "'"@);
                    if let Some(list) = missing_permissions {
                        lemma_filled_between("You need the permissions: '"@, "'"@, list@);
                    }
                }
                format_opt(
                    as_text(missing_permissions),
                    "You need the permissions: '{}'",
                    "You need permissions.",
                )
            },
            UserError::NotOwner => "Only the owner can use that command!".to_owned(),
            UserError::GuildOnly => "Only usable in a server.".to_owned(),
            UserError::DmOnly => "Only usable in private messages.".to_owned(),
            UserError::NsfwOnly => "Only usable in a NSFW channel. ( ͡° ͜ʖ ͡°)".to_owned(),
            UserError::EmptyQueue => "Nothing in the queue!".to_owned(),
        }
    }
}

/// Errors that can occur when reading/writing/parsing a config file.
#[derive(Debug, PartialEq)]
pub enum ConfigError {
    /// The config file is missing and/or has invalid options/values
    InvalidConfig {
        /// The reason for why the config is invalid
        reason: String,
    },
    /// The config file doesn't exist
    MissingConfig {
        /// What was done as a result of this error, usually writing the default config file.
        action_msg: String,
    },
    /// Unable to determine if config exist, can't read, can't write, etc...
    /// Holds the description of the failure.
    IoError(String),
}

impl ConfigError {
    /// The text of the error.
    pub open spec fn text(self) -> Seq<char> {
        match self {
            ConfigError::InvalidConfig { reason } => "Invalid configuration: "@ + reason@,
            ConfigError::MissingConfig { action_msg } => "Missing config file! "@ + action_msg@,
            ConfigError::IoError(description) => "IO error: "@ + description@,
        }
    }

    /// Renders the error.
    pub fn message(&self) -> (text: String)
        ensures
            text@ == self.text(),
    {
        match self {
            ConfigError::InvalidConfig { reason } => concat2(
                "Invalid configuration: ",
                reason.as_str(),
            ),
            ConfigError::MissingConfig { action_msg } => concat2(
                "Missing config file! ",
                action_msg.as_str(),
            ),
            ConfigError::IoError(description) => concat2("IO error: ", description.as_str()),
        }
    }
}

/// Contains all error types produced in this crate. An error that comes from
/// outside is held by its description.
#[derive(Debug, PartialEq)]
#[allow(inconsistent_fields)]
pub enum ParakeetError {
    /// Errors that are shown to users, see [UserError]
    UserError(UserError),
    /// Errors relating to configs, see [ConfigError]
    ConfigError(ConfigError),
    /// Errors relating to IO
    IoError(String),
    /// Conversion to utf8 failed.
    Utf8Error(String),
    /// There was an unexpected panic somewhere.
    Panic {
        /// A payload from the panic if there is one
        payload: Option<String>,
    },
    /// Unexpected mismatch of arg types, most likely from a delay when updating commands.
    CommandStructureMismatch {
        /// A helpful message describing the problem
        description: String,
    },
    /// Command check failed!
    CheckFailed {
        /// Why it failed, if there is a reason.
        reason: Option<String>,
    },
    /// Errors from the chat platform's client
    Serenity(String),
    /// Errors from joining a voice channel
    Songbird(String),
    /// Something wasn't initialized correctly.
    MissingFromSetup {
        /// What was missing
        reason: String,
    },
    /// Failed to get metadata for a track.
    MetadataError(String),
    /// Track manipulation error
    ControlError(String),
}

impl From<UserError> for ParakeetError {
    fn from(error: UserError) -> (wrapped: Self) {
        ParakeetError::UserError(error)
    }
}

impl vstd::std_specs::convert::FromSpecImpl<UserError> for ParakeetError {
    open spec fn obeys_from_spec() -> bool {
        true
    }

    open spec fn from_spec(error: UserError) -> Self {
        ParakeetError::UserError(error)
    }
}

impl From<ConfigError> for ParakeetError {
    fn from(error: ConfigError) -> (wrapped: Self) {
        ParakeetError::ConfigError(error)
    }
}

impl vstd::std_specs::convert::FromSpecImpl<ConfigError> for ParakeetError {
    open spec fn obeys_from_spec() -> bool {
        true
    }

    open spec fn from_spec(error: ConfigError) -> Self {
        ParakeetError::ConfigError(error)
    }
}

impl ParakeetError {
    /// The text of the error.
    pub open spec fn text(self) -> Seq<char> {
        match self {
            ParakeetError::UserError(inner) => inner.text(),
            ParakeetError::ConfigError(inner) => inner.text(),
            ParakeetError::IoError(description) => description@,
            ParakeetError::Utf8Error(description) => description@,
            ParakeetError::Panic { payload } => match payload {
                Some(shown) => "Panic! Payload: "@ + shown@,
                None => "Panic! Payload: None"@,
            },
            ParakeetError::CommandStructureMismatch { description } =>
                "Command structure mismatch! "@ + description@,
            ParakeetError::CheckFailed { reason } => match reason {
                Some(why) => "Denied! Reason: '"@ + why@ + "'"@,
                None => "Denied!"@,
            },
            ParakeetError::Serenity(description) => description@,
            ParakeetError::Songbird(description) => description@,
            ParakeetError::MissingFromSetup { reason } => "Setup was incorrect. Reason: "@
                + reason@,
            ParakeetError::MetadataError(description) => description@,
            ParakeetError::ControlError(description) => description@,
        }
    }

    /// Whether the error is one that is shown to the user as it is.
    pub open spec fn is_user_error(self) -> bool {
        self is UserError
    }

    /// Renders the error.
    pub fn message(&self) -> (text: String)
        ensures
            text@ == self.text(),
    {
        match self {
            ParakeetError::UserError(inner) => inner.message(),
            ParakeetError::ConfigError(inner) => inner.message(),
            ParakeetError::IoError(description) => description.clone(),
            ParakeetError::Utf8Error(description) => description.clone(),
            ParakeetError::Panic { payload } => {
                proof {
                    reveal_strlit("Panic! Payload: {}");
                    reveal_strlit("Panic! Payload: ");
                    assert("Panic! Payload: {}"@ =~= "Panic! Payload: "@ + seq!['{', '}']
                        + Seq::<char>::empty());
                    if let Some(shown) = payload {
                        lemma_filled_between("Panic! Payload: "@, Seq::empty(), shown@);
                    }
                }
                format_opt(as_text(payload), "Panic! Payload: {}", "Panic! Payload: None")
            },
            ParakeetError::CommandStructureMismatch { description } => concat2(
                "Command structure mismatch! ",
                description.as_str(),
            ),
            ParakeetError::CheckFailed { reason } => {
                proof {
                    reveal_strlit("Denied! Reason: '{}'");
                    reveal_strlit("Denied! Reason: '");
                    reveal_strlit("'");
                    assert("Denied! Reason: '{}'"@ =~= "Denied! Reason: '"@ + seq!['{', '}']
                        + "'"@);
                    if let Some(why) = reason {
                        lemma_filled_between("Denied! Reason: '"@, "'"@, why@);
                    }
                }
                format_opt(as_text(reason), "Denied! Reason: '{}'", "Denied!")
            },
            ParakeetError::Serenity(description) => description.clone(),
            ParakeetError::Songbird(description) => description.clone(),
            ParakeetError::MissingFromSetup { reason } => concat2(
                "Setup was incorrect. Reason: ",
                reason.as_str(),
            ),
            ParakeetError::MetadataError(description) => description.clone(),
            ParakeetError::ControlError(description) => description.clone(),
        }
    }
}

} // verus!
