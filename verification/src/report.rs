//! What to do about a failure that the command framework reports: what the
//! user is told, what is logged, and whether the developers are notified.

use crate::error::{ParakeetError, UserError};
use crate::text::{concat2, concat3, joined_text, texts_of};
use core::time::Duration;
use itertools::Itertools;
use vstd::prelude::*;
use vstd::string::*;

verus! {

/// `Itertools::join` over the strings of `names`: the first string, then
/// for each further one the separator and the string; the empty string for
/// no strings.
#[verifier::external_body]
fn join_names(names: &Vec<String>, separator: &str) -> (joined: String)
    ensures
        joined@ == joined_text(texts_of(names@), separator@),
{
    names.iter().join(separator)
}

/// What the command framework reports when something went wrong.
#[derive(Debug, PartialEq)]
#[allow(inconsistent_fields)]
pub enum FrameworkFailure {
    /// The start of the bot failed.
    Setup {
        /// The error, as text.
        error: String,
    },
    /// The handling of an event failed.
    EventHandler {
        /// The error, as text.
        error: String,
        /// The event, as text.
        event: String,
    },
    /// A command was called without one of its subcommands.
    SubcommandRequired {
        /// The names of the subcommands.
        subcommands: Vec<String>,
    },
    /// A command returned an error.
    Command {
        /// The error.
        error: ParakeetError,
    },
    /// An argument could not be parsed.
    ArgumentParse {
        /// What the parser said.
        error: String,
        /// The part that could not be parsed, if known.
        input: Option<String>,
    },
    /// The command is on cooldown.
    CooldownHit {
        /// Time remaining until cooldown is over
        remaining_cooldown: Duration,
    },
    /// The bot lacks permissions.
    MissingBotPermissions {
        /// The permissions, as shown to the user.
        missing_permissions: String,
    },
    /// The user lacks permissions.
    MissingUserPermissions {
        /// The permissions, as shown to the user, if they could be had.
        missing_permissions: Option<String>,
    },
    /// The command is for owners and the user is none.
    NotAnOwner,
    /// The command is for guilds and was used elsewhere.
    GuildOnly,
    /// The command is for private messages and was used elsewhere.
    DmOnly,
    /// The command is for NSFW channels and was used elsewhere.
    NsfwOnly,
    /// A check of the command refused the user.
    CommandCheckFailed {
        /// Why, if the check said so.
        error: Option<String>,
    },
    /// The command panicked.
    CommandPanic {
        /// What the panic carried, if it was text.
        payload: Option<String>,
    },
    /// The arguments that came do not match those of the command.
    CommandStructureMismatch {
        /// What does not match.
        description: String,
    },
    /// A prefix command that does not exist.
    UnknownCommand,
    /// An interaction that belongs to no command.
    UnknownInteraction {
        /// The name that came with it.
        name: String,
    },
    /// The dynamic prefix failed.
    DynamicPrefix,
    /// Anything else.
    Other,
}

/// Structured response to errors.
/// Always logged at debug level at least, and as an error if `is_error`
/// says so.
#[derive(Debug, PartialEq)]
pub struct Response {
    /// The reason for this reply, usually the error causing the response.
    pub source: ParakeetError,
    /// Optional ephemeral reply to user.
    pub reply: Option<String>,
    /// Additional information to log
    pub add_info: Option<String>,
    /// Set to `true` to log as error.
    pub is_error: bool,
    /// Set to `true` to send notifications of the error.
    /// Does nothing if `is_error` is false.
    pub notify: bool,
}

/// What is done about a failure.
#[derive(Debug, PartialEq)]
pub enum Handling {
    /// The failure is logged as an error and nobody is told.
    Log(String),
    /// The failure gets a response.
    Respond(Response),
}

/// Whether `response` shows the user error `source` to the user as it is:
/// the reply is the text of the error, nothing is logged as an error and
/// nobody is notified.
pub open spec fn shows_user_error(response: Response, source: UserError) -> bool {
    &&& response.source == ParakeetError::UserError(source)
    &&& response.reply matches Some(reply) && reply@ == source.text()
    &&& !response.is_error
    &&& !response.notify
}

/// Whether `response` reports the unexpected error `source`: the user gets
/// the general `reply`, the error is logged as one, and the developers are
/// notified.
pub open spec fn reports_bug(response: Response, source: ParakeetError, reply: Seq<char>) -> bool {
    &&& response.source == source
    &&& response.reply matches Some(text) && text@ == reply
    &&& response.add_info is None
    &&& response.is_error
    &&& response.notify
}

/// Whether `handling` is what is done about `failure`.
pub open spec fn handled_as(failure: FrameworkFailure, handling: Handling) -> bool {
    match failure {
        FrameworkFailure::Setup { error } => handling matches Handling::Log(line) && line@
            == "Error during startup: "@ + error@,
        FrameworkFailure::EventHandler { error, event } => handling matches Handling::Log(line)
            && line@ == "Error while handling event. Event: "@ + event@ + " Error:"@ + error@,
        FrameworkFailure::SubcommandRequired { subcommands } => handling matches Handling::Respond(
            response,
        ) && response.add_info is None && (exists|subcmds: String|
            subcmds@ == joined_text(texts_of(subcommands@), ", "@) && #[trigger] shows_user_error(
                response,
                UserError::MissingSubcommand { subcmds },
            )),
        FrameworkFailure::Command { error } => handling matches Handling::Respond(response) && (
        match error {
            ParakeetError::UserError(source) => response.add_info is None && shows_user_error(
                response,
                source,
            ),
            _ => reports_bug(
                response,
                error,
                "Something went wrong... A bug report has been sent."@,
            ),
        }),
        FrameworkFailure::ArgumentParse { error, input } => handling matches Handling::Respond(
            response,
        ) && response.add_info == Some(error) && shows_user_error(
            response,
            UserError::BadArgs { input },
        ),
        FrameworkFailure::CooldownHit { remaining_cooldown } => handling matches Handling::Respond(
            response,
        ) && response.add_info is None && shows_user_error(
            response,
            UserError::OnCooldown { remaining_cooldown },
        ),
        FrameworkFailure::MissingBotPermissions { missing_permissions } => handling
            matches Handling::Respond(response) && response.add_info is None && shows_user_error(
            response,
            UserError::MissingBotPermissions { missing_permissions },
        ),
        FrameworkFailure::MissingUserPermissions { missing_permissions } => handling
            matches Handling::Respond(response) && response.add_info is None && shows_user_error(
            response,
            UserError::MissingUserPermissions { missing_permissions },
        ),
        FrameworkFailure::NotAnOwner => handling matches Handling::Respond(response)
            && response.add_info is None && shows_user_error(response, UserError::NotOwner),
        FrameworkFailure::GuildOnly => handling matches Handling::Respond(response)
            && response.add_info is None && shows_user_error(response, UserError::GuildOnly),
        FrameworkFailure::DmOnly => handling matches Handling::Respond(response)
            && response.add_info is None && shows_user_error(response, UserError::DmOnly),
        FrameworkFailure::NsfwOnly => handling matches Handling::Respond(response)
            && response.add_info is None && shows_user_error(response, UserError::NsfwOnly),
        FrameworkFailure::CommandCheckFailed { error } => handling matches Handling::Respond(
            response,
        ) && response.source == (ParakeetError::CheckFailed { reason: error }) && (
        response.reply matches Some(reply) && reply@ == response.source.text())
            && response.add_info is None && !response.is_error && !response.notify,
        FrameworkFailure::CommandPanic { payload } => handling matches Handling::Respond(response)
            && reports_bug(
            response,
            ParakeetError::Panic { payload },
            "Something went horribly wrong... A bug report has been sent."@,
        ),
        FrameworkFailure::CommandStructureMismatch { description } => handling
            matches Handling::Respond(response) && reports_bug(
            response,
            ParakeetError::CommandStructureMismatch { description },
            "Command structure mismatch. Please wait until discord catches up to a bot update."@,
        ),
        FrameworkFailure::UnknownCommand => handling matches Handling::Log(line) && line@
            == "Prefix commands are not supported."@,
        FrameworkFailure::UnknownInteraction { name } => handling matches Handling::Log(line)
            && line@ == "Received unknown interaction: "@ + name@,
        FrameworkFailure::DynamicPrefix => handling matches Handling::Log(line) && line@
            == "Dynamic prefixes are not supported."@,
        FrameworkFailure::Other => handling matches Handling::Log(line) && line@
            == "The dev must have forgotten something..."@,
    }
}

/// The response that shows `source` to the user.
fn user_response(source: UserError, add_info: Option<String>) -> (response: Response)
    ensures
        shows_user_error(response, source),
        response.add_info == add_info,
{
    let reply = source.message();
    Response {
        source: ParakeetError::UserError(source),
        reply: Some(reply),
        add_info,
        is_error: false,
        notify: false,
    }
}

/// The response that reports `source` as a bug.
fn bug_response(source: ParakeetError, reply: &str) -> (response: Response)
    ensures
        reports_bug(response, source, reply@),
{
    Response {
        source,
        reply: Some(reply.to_owned()),
        add_info: None,
        is_error: true,
        notify: true,
    }
}

/// Decides what is done about a failure. What a user did wrong is shown to
/// that user and logged for the developer only. What went wrong
/// unexpectedly is answered in general words, logged as an error, and the
/// developers are notified. What has no user to tell is logged.
pub fn handle_framework_error(failure: FrameworkFailure) -> (handling: Handling)
    ensures
        handled_as(failure, handling),
{
    match failure {
        FrameworkFailure::Setup { error } => Handling::Log(
            concat2("Error during startup: ", error.as_str()),
        ),
        FrameworkFailure::EventHandler { error, event } => {
            let mut line = concat3("Error while handling event. Event: ", event.as_str(), " Error:");
            line.append(error.as_str());
            Handling::Log(line)
        },
        FrameworkFailure::SubcommandRequired { subcommands } => {
            let subcmds = join_names(&subcommands, ", ");
            let response = user_response(UserError::MissingSubcommand { subcmds }, None);
            Handling::Respond(response)
        },
        FrameworkFailure::Command { error } => match error {
            ParakeetError::UserError(source) => Handling::Respond(user_response(source, None)),
            other => Handling::Respond(
                bug_response(other, "Something went wrong... A bug report has been sent."),
            ),
        },
        FrameworkFailure::ArgumentParse { error, input } => Handling::Respond(
            user_response(UserError::BadArgs { input }, Some(error)),
        ),
        FrameworkFailure::CooldownHit { remaining_cooldown } => Handling::Respond(
            user_response(UserError::OnCooldown { remaining_cooldown }, None),
        ),
        FrameworkFailure::MissingBotPermissions { missing_permissions } => Handling::Respond(
            user_response(UserError::MissingBotPermissions { missing_permissions }, None),
        ),
        FrameworkFailure::MissingUserPermissions { missing_permissions } => Handling::Respond(
            user_response(UserError::MissingUserPermissions { missing_permissions }, None),
        ),
        FrameworkFailure::NotAnOwner => Handling::Respond(
            user_response(UserError::NotOwner, None),
        ),
        FrameworkFailure::GuildOnly => Handling::Respond(
            user_response(UserError::GuildOnly, None),
        ),
        FrameworkFailure::DmOnly => Handling::Respond(user_response(UserError::DmOnly, None)),
        FrameworkFailure::NsfwOnly => Handling::Respond(user_response(UserError::NsfwOnly, None)),
        FrameworkFailure::CommandCheckFailed { error } => {
            let source = ParakeetError::CheckFailed { reason: error };
            let reply = source.message();
            Handling::Respond(
                Response { source, reply: Some(reply), add_info: None, is_error: false, notify: false },
            )
        },
        FrameworkFailure::CommandPanic { payload } => Handling::Respond(
            bug_response(
                ParakeetError::Panic { payload },
                "Something went horribly wrong... A bug report has been sent.",
            ),
        ),
        FrameworkFailure::CommandStructureMismatch { description } => Handling::Respond(
            bug_response(
                ParakeetError::CommandStructureMismatch { description },
                "Command structure mismatch. Please wait until discord catches up to a bot update.",
            ),
        ),
        FrameworkFailure::UnknownCommand => Handling::Log(
            "Prefix commands are not supported.".to_owned(),
        ),
        FrameworkFailure::UnknownInteraction { name } => Handling::Log(
            concat2("Received unknown interaction: ", name.as_str()),
        ),
        FrameworkFailure::DynamicPrefix => Handling::Log(
            "Dynamic prefixes are not supported.".to_owned(),
        ),
        FrameworkFailure::Other => Handling::Log(
            "The dev must have forgotten something...".to_owned(),
        ),
    }
}

/// Who did what when an error came up.
pub open spec fn debug_info_text(user: Seq<char>, command: Seq<char>, invocation: Seq<char>) -> Seq<
    char,
> {
    user + " tried to use "@ + command + " with "@ + invocation + "."@
}

/// Helper function to create debug information: who called which command
/// with which words.
pub fn debug_info(user: &str, command: &str, invocation: &str) -> (info: String)
    ensures
        info@ == debug_info_text(user@, command@, invocation@),
{
    let mut info = concat3(user, " tried to use ", command);
    info.append(" with ");
    info.append(invocation);
    info.append(".");
    info
}

/// The kinds of step that a response is made of.
#[derive(Clone, Copy, Debug, PartialEq, Eq, Structural)]
pub enum StepKind {
    /// A line is logged as an error.
    LogError,
    /// A line is logged for the developer.
    LogDebug,
    /// A message goes to everybody on the notify list.
    Notify,
    /// A reply that only the user sees.
    Reply,
}

/// One step of a response.
#[derive(Debug, PartialEq)]
pub struct Step {
    /// What is done.
    pub kind: StepKind,
    /// The text that it is done with.
    pub text: String,
}

/// The kinds and texts of `steps`.
pub open spec fn steps_view(steps: Seq<Step>) -> Seq<(StepKind, Seq<char>)> {
    Seq::new(steps.len(), |i: int| (steps[i].kind, steps[i].text@))
}

impl Response {
    /// The line that is logged: the error, a blank, and behind a bar what
    /// else is known.
    pub open spec fn log_text(self) -> Seq<char> {
        self.source.text() + seq![' '] + (match self.add_info {
            Some(info) => "| "@ + info@,
            None => Seq::empty(),
        })
    }

    /// The line that is logged.
    pub fn log_message(&self) -> (line: String)
        ensures
            line@ == self.log_text(),
    {
        let mut line = self.source.message();
        line.push(' ');
        if let Some(info) = &self.add_info {
            line.append("| ");
            line.append(info.as_str());
        }
        line
    }

    /// The steps of the response, in their order, as kinds and texts.
    pub open spec fn planned_steps(self, debug_info: Seq<char>) -> Seq<(StepKind, Seq<char>)> {
        let logged = if self.is_error {
            if self.notify {
                seq![
                    (StepKind::LogError, self.log_text()),
                    (
                        StepKind::Notify,
                        "Debug Info: "@ + debug_info + seq!['\n'] + self.log_text(),
                    ),
                ]
            } else {
                seq![(StepKind::LogError, self.log_text())]
            }
        } else {
            seq![(StepKind::LogDebug, self.log_text())]
        };
        match self.reply {
            Some(reply) => logged.push((StepKind::Reply, reply@)),
            None => logged,
        }
    }

    /// Lays out the response: first the log line, as an error or for the
    /// developer only; for an error that is to be notified, the message to
    /// the notify list with `debug_info` in it; last the reply to the user,
    /// if there is one.
    pub fn send(&self, debug_info: &str) -> (steps: Vec<Step>)
        ensures
            steps_view(steps@) == self.planned_steps(debug_info@),
    {
        let mut steps: Vec<Step> = Vec::new();
        let log_message = self.log_message();
        if self.is_error {
            if self.notify {
                let mut content = concat3("Debug Info: ", debug_info, "\n");
                content.append(log_message.as_str());
                proof {
                    reveal_strlit("\n");
                    assert("\n"@ =~= seq!['\n']);
                }
                steps.push(Step { kind: StepKind::LogError, text: log_message });
                steps.push(Step { kind: StepKind::Notify, text: content });
            } else {
                steps.push(Step { kind: StepKind::LogError, text: log_message });
            }
        } else {
            steps.push(Step { kind: StepKind::LogDebug, text: log_message });
        }
        if let Some(reply) = &self.reply {
            steps.push(Step { kind: StepKind::Reply, text: reply.clone() });
        }
        steps
    }
}

/// An error of the user is shown to the user as it is, is never logged as an
/// error and never notified; every other error of a command is answered in
/// general words, logged as an error and notified.
pub proof fn lemma_command_errors(error: ParakeetError, handling: Handling)
    requires
        handled_as(FrameworkFailure::Command { error }, handling),
    ensures
        handling is Respond,
        handling->Respond_0.source == error,
        error is UserError ==> !handling->Respond_0.is_error && !handling->Respond_0.notify
            && handling->Respond_0.reply->0@ == error.text(),
        !(error is UserError) ==> handling->Respond_0.is_error && handling->Respond_0.notify
            && handling->Respond_0.reply->0@
            == "Something went wrong... A bug report has been sent."@,
{
}

} // verus!
