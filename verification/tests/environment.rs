use chocoapi::configuration::{ssl_mode_for, Environment, SslMode};
use chocoapi::startup::should_retry_connect;

#[test]
fn environment_names() {
    assert_eq!(Environment::Local.as_str(), "local");
    assert_eq!(Environment::Production.as_str(), "production");
}

#[test]
fn canonical_names_parse() {
    assert_eq!(Environment::from_canonical("local"), Some(Environment::Local));
    assert_eq!(Environment::from_canonical("production"), Some(Environment::Production));
    assert_eq!(Environment::from_canonical("staging"), None);
    assert_eq!(Environment::from_canonical("Local"), None);
}

#[test]
fn parsing_ignores_case() {
    assert_eq!(Environment::try_from("LOCAL".to_string()), Ok(Environment::Local));
    assert_eq!(Environment::try_from("Production".to_string()), Ok(Environment::Production));
    assert_eq!(Environment::try_from("local".to_string()), Ok(Environment::Local));
}

#[test]
fn unsupported_environment_is_rejected_with_its_name() {
    let err = Environment::try_from("Staging".to_string()).err().expect("staging is unsupported");
    assert_eq!(
        err,
        "staging is not a supported environment. Use either `local` or `production`"
    );
}

#[test]
fn ssl_mode_follows_the_configuration() {
    assert_eq!(ssl_mode_for(true), SslMode::Require);
    assert_eq!(ssl_mode_for(false), SslMode::Prefer);
}

#[test]
fn connection_attempts_are_retried_five_times() {
    for retries in 0..5u32 {
        assert!(should_retry_connect(retries));
    }
    assert!(!should_retry_connect(5));
    assert!(!should_retry_connect(100));
}
