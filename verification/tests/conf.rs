use cdp::conf::{field_value, init, Conf, ConfError, Env};
use cdp::level::{parse_level, Level};

fn env_of(entries: &[(&str, &str)]) -> Env {
    let mut pairs: Vec<(String, String)> = Vec::new();
    for (k, v) in entries {
        pairs.push((k.to_string(), v.to_string()));
    }
    Env { pairs }
}

#[test]
fn empty_env_yields_default_info() {
    let env = env_of(&[]);
    assert_eq!(init(&env), Ok(Conf { log_level: Level::Info }));
}

#[test]
fn unrelated_vars_yield_default_info() {
    let env = env_of(&[("HOME", "/root"), ("LANG", "C")]);
    assert_eq!(init(&env), Ok(Conf { log_level: Level::Info }));
}

#[test]
fn debug_yields_debug() {
    let env = env_of(&[("LOG_LEVEL", "debug")]);
    assert_eq!(init(&env), Ok(Conf { log_level: Level::Debug }));
}

#[test]
fn uppercase_debug_yields_debug() {
    let env = env_of(&[("LOG_LEVEL", "DEBUG")]);
    assert_eq!(init(&env), Ok(Conf { log_level: Level::Debug }));
}

#[test]
fn every_canonical_name_yields_its_level() {
    let cases = [
        ("error", Level::Error),
        ("warn", Level::Warn),
        ("info", Level::Info),
        ("debug", Level::Debug),
        ("trace", Level::Trace),
    ];
    for (name, level) in cases {
        let env = env_of(&[("LOG_LEVEL", name)]);
        assert_eq!(init(&env), Ok(Conf { log_level: level }));
    }
}

#[test]
fn case_variants_yield_the_same_level() {
    let cases = [
        ("ERROR", Level::Error),
        ("Error", Level::Error),
        ("wArN", Level::Warn),
        ("Info", Level::Info),
        ("INFO", Level::Info),
        ("Debug", Level::Debug),
        ("TRACE", Level::Trace),
        ("tRaCe", Level::Trace),
    ];
    for (name, level) in cases {
        let env = env_of(&[("LOG_LEVEL", name)]);
        assert_eq!(init(&env), Ok(Conf { log_level: level }));
    }
}

#[test]
fn unrecognized_value_fails_with_invalid_format() {
    let env = env_of(&[("LOG_LEVEL", "banana")]);
    match init(&env) {
        Err(ConfError::InvalidFormat { var, value }) => {
            assert_eq!(var, "LOG_LEVEL");
            assert_eq!(value, "banana");
        }
        other => panic!("expected InvalidFormat, got {:?}", other),
    }
}

#[test]
fn verbose_fails_and_message_names_the_variable() {
    let env = env_of(&[("LOG_LEVEL", "verbose")]);
    let err = init(&env).unwrap_err();
    let message = err.message();
    assert!(message.contains("LOG_LEVEL"));
    assert!(message.contains("verbose"));
}

#[test]
fn invalid_format_message_exact_text() {
    let env = env_of(&[("LOG_LEVEL", "banana")]);
    let err = init(&env).unwrap_err();
    assert_eq!(
        err.message(),
        "Failed to parse environment variable(s): LOG_LEVEL has the unrecognized value `banana`"
    );
}

#[test]
fn near_miss_values_fail() {
    for bad in ["", " info", "info ", "infos", "warning", "débug"] {
        let env = env_of(&[("LOG_LEVEL", bad)]);
        assert!(
            matches!(init(&env), Err(ConfError::InvalidFormat { .. })),
            "value {:?} should not parse",
            bad
        );
    }
}

#[test]
fn repeated_loads_are_equal() {
    let env = env_of(&[("LOG_LEVEL", "trace")]);
    assert_eq!(init(&env), init(&env));

    let bad = env_of(&[("LOG_LEVEL", "banana")]);
    let m1 = init(&bad).unwrap_err().message();
    let m2 = init(&bad).unwrap_err().message();
    assert_eq!(m1, m2);
}

#[test]
fn loading_leaves_the_snapshot_unchanged() {
    let env = env_of(&[("LOG_LEVEL", "warn"), ("HOME", "/root")]);
    let _ = init(&env);
    let _ = init(&env);
    assert_eq!(env.pairs.len(), 2);
    assert_eq!(env.pairs[0], ("LOG_LEVEL".to_string(), "warn".to_string()));
    assert_eq!(env.pairs[1], ("HOME".to_string(), "/root".to_string()));
}

#[test]
fn lookup_returns_the_first_binding() {
    let env = env_of(&[("A", "1"), ("LOG_LEVEL", "warn"), ("LOG_LEVEL", "debug")]);
    assert_eq!(env.lookup("LOG_LEVEL"), Some("warn"));
    assert_eq!(env.lookup("A"), Some("1"));
    assert_eq!(env.lookup("B"), None);
}

#[test]
fn field_value_prefers_the_environment_over_the_default() {
    let env = env_of(&[("LOG_LEVEL", "trace")]);
    assert_eq!(field_value(&env, "LOG_LEVEL", Some("info")), Ok("trace"));
}

#[test]
fn field_value_falls_back_to_the_default() {
    let env = env_of(&[]);
    assert_eq!(field_value(&env, "LOG_LEVEL", Some("info")), Ok("info"));
}

#[test]
fn field_value_without_default_reports_missing() {
    let env = env_of(&[]);
    match field_value(&env, "API_KEY", None) {
        Err(e @ ConfError::MissingRequiredValue { .. }) => {
            assert!(e.message().contains("API_KEY"));
        }
        other => panic!("expected MissingRequiredValue, got {:?}", other),
    }
}

#[test]
fn missing_value_message_exact_text() {
    let env = env_of(&[]);
    let err = field_value(&env, "API_KEY", None).unwrap_err();
    assert_eq!(
        err.message(),
        "Failed to parse environment variable(s): API_KEY is not set and has no default"
    );
}

#[test]
fn parse_level_accepts_names_and_rejects_the_rest() {
    assert_eq!(parse_level("error"), Some(Level::Error));
    assert_eq!(parse_level("WARN"), Some(Level::Warn));
    assert_eq!(parse_level("Info"), Some(Level::Info));
    assert_eq!(parse_level("debug"), Some(Level::Debug));
    assert_eq!(parse_level("trace"), Some(Level::Trace));
    assert_eq!(parse_level(""), None);
    assert_eq!(parse_level("err"), None);
    assert_eq!(parse_level("tracee"), None);
}
