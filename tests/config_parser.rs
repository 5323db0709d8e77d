use hellcheck::config_parser::{parse_config, parse_key, parse_yaml_to_vec, ConfigError, YamlValue};
use yaml_rust::{Yaml, YamlLoader};

fn convert(y: &Yaml) -> YamlValue {
    match y {
        Yaml::String(s) => YamlValue::Str(s.clone()),
        Yaml::Integer(n) => YamlValue::Int(*n),
        Yaml::Array(items) => YamlValue::Array(items.iter().map(convert).collect()),
        Yaml::Hash(h) => YamlValue::Hash(h.iter().map(|(k, v)| (convert(k), convert(v))).collect()),
        other => YamlValue::Other(format!("{:?}", other)),
    }
}

fn load(yaml: &str) -> Vec<YamlValue> {
    YamlLoader::load_from_str(yaml).unwrap().iter().map(convert).collect()
}

#[test]
fn mod_test_valid_yaml() {
    let yaml = r#"
        checkers:
          greyblake:
            url: https://www.greyblake.com/
            interval: 1s
            notifiers: [telebot]

        notifiers:
          telebot:
            type: telegram
            token: TOKENGOESHERE
            chat_id: 8677112
    "#;
    let config = parse_config(&load(yaml)).unwrap();
    assert_eq!(config.checkers.len(), 1);
    assert_eq!(config.notifiers.len(), 1);
}

#[test]
fn mod_test_token_is_missing_for_telegram_notifier() {
    let yaml = r#"
        checkers:
          greyblake:
            url: https://www.greyblake.com/
            interval: 1s
            notifiers: [telebot]

        notifiers:
          telebot:
            type: telegram
            chat_id: 8677112
    "#;
    let err = parse_config(&load(yaml)).unwrap_err();
    assert_eq!(
        err,
        ConfigError::FieldMissing {
            path: "notifiers.telebot.token".to_owned()
        }
    )
}

#[test]
fn mod_test_checker_has_no_url() {
    let yaml = r#"
        checkers:
          greyblake:
            interval: 1s
            notifiers: [telebot]

        notifiers:
          telebot:
            type: telegram
            token: TOKEN
            chat_id: 8677112
    "#;
    let err = parse_config(&load(yaml)).unwrap_err();
    assert_eq!(
        err,
        ConfigError::FieldMissing {
            path: "checkers.greyblake.url".to_owned()
        }
    )
}

#[test]
fn config_parser_test_valid_yaml() {
    let yaml = r#"
        checkers:
          greyblake:
            url: https://www.greyblake.com/
            interval: 1s
            notifiers: [telebot]

        notifiers:
          telebot:
            type: telegram
            token: TOKENGOESHERE
            chat_id: 8677112
    "#;
    let config = parse_config(&load(yaml)).unwrap();
    assert_eq!(config.checkers.len(), 1);
    assert_eq!(config.notifiers.len(), 1);
}

#[test]
fn config_parser_test_token_is_missing_for_telegram_notifier() {
    let yaml = r#"
        checkers:
          greyblake:
            url: https://www.greyblake.com/
            interval: 1s
            notifiers: [telebot]

        notifiers:
          telebot:
            type: telegram
            chat_id: 8677112
    "#;
    let err = parse_config(&load(yaml)).unwrap_err();
    assert_eq!(
        err,
        ConfigError::FieldMissing {
            path: "notifiers.telebot.token".to_owned()
        }
    )
}

#[test]
fn config_parser_test_checker_has_no_url() {
    let yaml = r#"
        checkers:
          greyblake:
            interval: 1s
            notifiers: [telebot]

        notifiers:
          telebot:
            type: telegram
            token: TOKEN
            chat_id: 8677112
    "#;
    let err = parse_config(&load(yaml)).unwrap_err();
    assert_eq!(
        err,
        ConfigError::FieldMissing {
            path: "checkers.greyblake.url".to_owned()
        }
    )
}

#[test]
fn parsed_values_are_kept() {
    let yaml = r#"
        checkers:
          greyblake:
            url: https://www.greyblake.com/
            interval: 1m 30s
            notifiers: [telebot, script]
            basic_auth:
              username: user
              password: pass
          plain:
            url: http://example.com/health

        notifiers:
          telebot:
            type: telegram
            token: TOKENGOESHERE
            chat_id: 8677112
          script:
            type: command
            command: ["/usr/bin/notify", "-v", 3]
          chat:
            type: hipchat
            token: T
            room_id: 42
            base_url: https://hipchat.example.com
          hook:
            type: slack
            webhook_url: https://hooks.slack.com/services/X
    "#;
    let config = parse_config(&load(yaml)).unwrap();
    let c = &config.checkers[0];
    assert_eq!(c.id, "greyblake");
    assert_eq!(c.url, "https://www.greyblake.com/");
    assert_eq!(c.interval.secs, 90);
    assert_eq!(c.interval.nanos, 0);
    assert_eq!(c.notifiers, vec!["telebot".to_string(), "script".to_string()]);
    let auth = c.basic_auth.as_ref().unwrap();
    assert_eq!(auth.username, "user");
    assert_eq!(auth.password, "pass");

    let plain = &config.checkers[1];
    assert_eq!(plain.interval.secs, 10);
    assert!(plain.notifiers.is_empty());
    assert!(plain.basic_auth.is_none());

    match &config.notifiers[0].config {
        hellcheck::config::NotifierConfig::Telegram(t) => {
            assert_eq!(t.token, "TOKENGOESHERE");
            assert_eq!(t.chat_id, "8677112");
        }
        other => panic!("unexpected {:?}", other),
    }
    match &config.notifiers[1].config {
        hellcheck::config::NotifierConfig::Command(c) => {
            assert_eq!(c.command, "/usr/bin/notify");
            assert_eq!(c.arguments, vec!["-v".to_string(), "3".to_string()]);
        }
        other => panic!("unexpected {:?}", other),
    }
    match &config.notifiers[2].config {
        hellcheck::config::NotifierConfig::Hipchat(h) => {
            assert_eq!(h.token, "T");
            assert_eq!(h.room_id, "42");
            assert_eq!(h.base_url, "https://hipchat.example.com/");
        }
        other => panic!("unexpected {:?}", other),
    }
    match &config.notifiers[3].config {
        hellcheck::config::NotifierConfig::Slack(s) => {
            assert_eq!(s.webhook_url, "https://hooks.slack.com/services/X");
        }
        other => panic!("unexpected {:?}", other),
    }
}

fn error_of(yaml: &str) -> ConfigError {
    parse_config(&load(yaml)).unwrap_err()
}

#[test]
fn invalid_interval_is_refused() {
    let err = error_of("checkers:\n  a:\n    url: http://a/\n    interval: often\n");
    assert_eq!(
        err,
        ConfigError::InvalidCheckerInterval { checker_id: "a".to_owned(), interval: "often".to_owned() }
    );
    assert_eq!(err.message(), "Failed to parse interval `often` in checkers.a.interval");
}

#[test]
fn invalid_url_is_refused() {
    let err = error_of("checkers:\n  a:\n    url: \"http://exa mple\"\n");
    assert_eq!(err, ConfigError::InvalidCheckerUrl { checker_id: "a".to_owned(), url: "http://exa mple".to_owned() });
}

#[test]
fn unknown_checker_attribute_is_refused() {
    let err = error_of("checkers:\n  a:\n    url: http://a/\n    colour: red\n");
    assert_eq!(
        err,
        ConfigError::UnknownCheckerAttribute { checker_id: "a".to_owned(), attr_name: "colour".to_owned() }
    );
}

#[test]
fn first_error_in_document_order_wins() {
    let err = error_of("checkers:\n  a:\n    colour: red\n    interval: often\n");
    assert_eq!(
        err,
        ConfigError::UnknownCheckerAttribute { checker_id: "a".to_owned(), attr_name: "colour".to_owned() }
    );
}

#[test]
fn unknown_notifier_type_is_refused() {
    let err = error_of("notifiers:\n  n:\n    type: pigeon\n");
    assert_eq!(
        err,
        ConfigError::InvalidNotifierType { notifier_id: "n".to_owned(), type_value: "pigeon".to_owned() }
    );
    assert_eq!(err.message(), "Invalid notifier type `pigeon` in `notifiers.n.type`");
}

#[test]
fn missing_notifier_type_is_refused() {
    let err = error_of("notifiers:\n  n:\n    token: x\n");
    assert_eq!(err, ConfigError::FieldMissing { path: "notifiers.n.type".to_owned() });
    assert_eq!(err.message(), "Field `notifiers.n.type` is missing");
}

#[test]
fn unknown_notifier_attribute_is_refused() {
    let err = error_of("notifiers:\n  n:\n    type: telegram\n    token: x\n    chat_id: 1\n    extra: 2\n");
    assert_eq!(
        err,
        ConfigError::UnknownNotifierAttribute {
            notifier_id: "n".to_owned(),
            notifier_type: "telegram".to_owned(),
            attr_name: "extra".to_owned(),
        }
    );
}

#[test]
fn empty_command_is_refused() {
    let err = error_of("notifiers:\n  n:\n    type: command\n    command: []\n");
    assert_eq!(
        err,
        ConfigError::GeneralError { message: "`notifiers.n.command` must have a command specified".to_owned() }
    );
}

#[test]
fn command_must_be_an_array() {
    let err = error_of("notifiers:\n  n:\n    type: command\n    command: /bin/true\n");
    assert_eq!(err, ConfigError::GeneralError { message: "`notifiers.n.command` must be an array.".to_owned() });
}

#[test]
fn basic_auth_needs_a_password() {
    let err = error_of("checkers:\n  a:\n    url: http://a/\n    basic_auth:\n      username: u\n");
    assert_eq!(err, ConfigError::FieldMissing { path: "checkers.a.basic_auth.password".to_owned() });
}

#[test]
fn basic_auth_refuses_other_attributes() {
    let err = error_of("checkers:\n  a:\n    url: http://a/\n    basic_auth:\n      token: u\n");
    assert_eq!(err, ConfigError::GeneralError { message: "Unknown attribute checkers.a.basic_auth.token".to_owned() });
}

#[test]
fn unknown_root_element_is_refused() {
    let err = error_of("watchers: {}\n");
    assert_eq!(err, ConfigError::UnknownRootElement { name: "watchers".to_owned() });
    assert_eq!(err.message(), "Unknown root element `watchers`");
}

#[test]
fn root_must_be_a_hash() {
    let err = error_of("- a\n- b\n");
    assert_eq!(err, ConfigError::GeneralError { message: "Root element of YAML must be Hash".to_owned() });
}

#[test]
fn integer_keys_read_in_decimal() {
    assert_eq!(parse_key(&YamlValue::Int(-5017)).unwrap(), "-5017");
    assert_eq!(parse_key(&YamlValue::Int(0)).unwrap(), "0");
    assert!(parse_key(&YamlValue::Other("Null".to_owned())).is_err());
}

#[test]
fn lists_of_scalars_are_read() {
    let v = YamlValue::Array(vec![YamlValue::Str("a".to_owned()), YamlValue::Int(7)]);
    assert_eq!(parse_yaml_to_vec(&v).unwrap(), vec!["a".to_string(), "7".to_string()]);
    let bad = YamlValue::Array(vec![YamlValue::Str("a".to_owned()), YamlValue::Other("Null".to_owned())]);
    assert_eq!(
        parse_yaml_to_vec(&bad).unwrap_err(),
        ConfigError::GeneralError { message: "Key must be a string. Got Null".to_owned() }
    );
    assert_eq!(
        parse_yaml_to_vec(&YamlValue::Int(1)).unwrap_err(),
        ConfigError::GeneralError { message: "Value must be an array. Got an integer".to_owned() }
    );
}

#[test]
fn interval_with_too_many_digits_is_refused() {
    let err = error_of("checkers:\n  a:\n    url: http://a/\n    interval: 100000000000s\n");
    assert_eq!(
        err,
        ConfigError::InvalidCheckerInterval { checker_id: "a".to_owned(), interval: "100000000000s".to_owned() }
    );
    let config = parse_config(&load("checkers:\n  a:\n    url: http://a/\n    interval: 1000000s 500ms\n")).unwrap();
    assert_eq!(config.checkers[0].interval.secs, 1000000);
    assert_eq!(config.checkers[0].interval.nanos, 500000000);
}
