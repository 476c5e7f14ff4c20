use parakeet_bot::env_config::Config;
use parakeet_bot::error::ConfigError;

fn some(text: &str) -> Option<String> {
    Some(text.to_string())
}

fn invalid(reason: &str) -> ConfigError {
    ConfigError::InvalidConfig { reason: reason.to_string() }
}

#[test]
fn settings_from_all_three_values() {
    assert_eq!(
        Config::from_env(some("tok"), some("42"), some("7")),
        Ok(Config { token: "tok".to_string(), test_guild: Some(7), app_id: 42 })
    );
}

#[test]
fn the_test_guild_may_be_left_out() {
    assert_eq!(
        Config::from_env(some("tok"), some("42"), None),
        Ok(Config { token: "tok".to_string(), test_guild: None, app_id: 42 })
    );
}

#[test]
fn token_and_application_are_needed() {
    assert_eq!(
        Config::from_env(None, None, None),
        Err(invalid("Missing environment variable: TOKEN"))
    );
    assert_eq!(
        Config::from_env(some("tok"), None, some("x")),
        Err(invalid("Missing environment variable: APP_ID"))
    );
}

#[test]
fn numbers_must_be_numbers() {
    assert_eq!(Config::from_env(some("tok"), some("x"), some("y")), Err(invalid("Not a number: APP_ID")));
    assert_eq!(
        Config::from_env(some("tok"), some("1"), some("y")),
        Err(invalid("Not a number: TEST_GUILD"))
    );
    assert_eq!(
        Config::from_env(some("tok"), some("1"), some("")),
        Err(invalid("Not a number: TEST_GUILD"))
    );
}
