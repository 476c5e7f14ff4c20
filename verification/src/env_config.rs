//! Settings that come as three values of the environment.

use crate::error::ConfigError;
use crate::scan::{number_of, parse_u64};
use crate::text::concat2;
use vstd::prelude::*;
use vstd::string::*;

verus! {

/// Settings from the environment.
#[derive(Debug, PartialEq)]
pub struct Config {
    /// Token needed to use a bot account.
    pub token: String,
    /// The guild on which commands are tried out, if any.
    pub test_guild: Option<u64>,
    /// The number of the application.
    pub app_id: u64,
}

/// The error for a value that the environment lacks.
fn missing(name: &str) -> (error: ConfigError)
    ensures
        error matches ConfigError::InvalidConfig { reason } && reason@
            == "Missing environment variable: "@ + name@,
{
    ConfigError::InvalidConfig { reason: concat2("Missing environment variable: ", name) }
}

/// The error for a value that is no number.
fn not_a_number(name: &str) -> (error: ConfigError)
    ensures
        error matches ConfigError::InvalidConfig { reason } && reason@
            == "Not a number: "@ + name@,
{
    ConfigError::InvalidConfig { reason: concat2("Not a number: ", name) }
}

/// Whether settings can be made of these three values: the token and the
/// application's number are there, and what is there of numbers is a
/// number.
pub open spec fn env_complete(
    token: Option<String>,
    app_id: Option<String>,
    test_guild: Option<String>,
) -> bool {
    &&& token is Some
    &&& app_id matches Some(text) && number_of(text@) is Some
    &&& test_guild matches Some(text) ==> number_of(text@) is Some
}

impl Config {
    /// Makes the settings of the values of `TOKEN`, `APP_ID` and
    /// `TEST_GUILD`, each `None` where the environment does not hold it. The
    /// first two are needed, and the numbers have to be numbers; the first
    /// value that fails, in this order, is the one that the error names.
    pub fn from_env(token: Option<String>, app_id: Option<String>, test_guild: Option<String>) -> (
    config: Result<Config, ConfigError>)
        ensures
            config is Ok == env_complete(token, app_id, test_guild),
            config matches Ok(made) ==> made.token == token->0 && Some(made.app_id) == number_of(
                app_id->0@,
            ) && (match test_guild {
                Some(text) => made.test_guild == number_of(text@),
                None => made.test_guild is None,
            }),
            config matches Err(error) ==> error matches ConfigError::InvalidConfig { reason }
                && reason@ == (if token is None {
                "Missing environment variable: "@ + "TOKEN"@
            } else if app_id is None {
                "Missing environment variable: "@ + "APP_ID"@
            } else if number_of(app_id->0@) is None {
                "Not a number: "@ + "APP_ID"@
            } else {
                "Not a number: "@ + "TEST_GUILD"@
            }),
    {
        let token = match token {
            Some(token) => token,
            None => {
                return Err(missing("TOKEN"));
            },
        };
        let app_id = match app_id {
            Some(text) => match parse_u64(text.as_str()) {
                Some(number) => number,
                None => {
                    return Err(not_a_number("APP_ID"));
                },
            },
            None => {
                return Err(missing("APP_ID"));
            },
        };
        let test_guild = match test_guild {
            Some(text) => match parse_u64(text.as_str()) {
                Some(number) => Some(number),
                None => {
                    return Err(not_a_number("TEST_GUILD"));
                },
            },
            None => None,
        };
        Ok(Config { token, test_guild, app_id })
    }
}

} // verus!
