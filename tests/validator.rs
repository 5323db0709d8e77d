use hellcheck::cli::run;
use hellcheck::config::{CheckerConfig, CommandNotifierConfig, FileConfig, Interval, Notifier, NotifierConfig};
use hellcheck::validator::{is_consistent, validate_config, ConfigValidationError};

fn checker(id: &str, notifiers: &[&str]) -> CheckerConfig {
    CheckerConfig {
        id: id.to_owned(),
        url: "http://x/".to_owned(),
        interval: Interval { secs: 10, nanos: 0 },
        notifiers: notifiers.iter().map(|n| n.to_string()).collect(),
        basic_auth: None,
    }
}

fn command(id: &str, cmd: &str) -> Notifier {
    Notifier {
        id: id.to_owned(),
        config: NotifierConfig::Command(CommandNotifierConfig { command: cmd.to_owned(), arguments: vec![] }),
    }
}

#[test]
fn undeclared_notifier_is_refused() {
    let config = FileConfig { checkers: vec![checker("a", &["n", "m"])], notifiers: vec![command("n", "true")] };
    match validate_config(&config, &vec![]) {
        Err(ConfigValidationError::UnknownNotifier { checker_id, notifier_id }) => {
            assert_eq!(checker_id, "a");
            assert_eq!(notifier_id, "m");
        }
        other => panic!("unexpected {:?}", other),
    }
    let e = validate_config(&config, &vec![]).unwrap_err();
    assert_eq!(e.message(), "`checkers.a.notifiers` refers to an undeclared notifier `m`");
}

#[test]
fn missing_command_is_refused() {
    let config = FileConfig { checkers: vec![checker("a", &["n"])], notifiers: vec![command("n", "nosuch")] };
    match validate_config(&config, &vec!["nosuch".to_owned()]) {
        Err(ConfigValidationError::CommandNotFound { notifier_id, command }) => {
            assert_eq!(notifier_id, "n");
            assert_eq!(command, "nosuch");
        }
        other => panic!("unexpected {:?}", other),
    }
    assert!(validate_config(&config, &vec!["other".to_owned()]).is_ok());
}

#[test]
fn warnings_for_unused_and_empty() {
    let config = FileConfig {
        checkers: vec![checker("a", &["n"]), checker("b", &[])],
        notifiers: vec![command("n", "true"), command("idle", "true")],
    };
    let warnings = validate_config(&config, &vec![]).unwrap();
    assert_eq!(
        warnings,
        vec![
            "`checkers.b.notifiers` is empty. You will not get notifications".to_string(),
            "Notifier `idle` is not used by any of the checkers.".to_string(),
        ]
    );
}

#[test]
fn warning_when_no_notifier_is_declared() {
    let config = FileConfig { checkers: vec![checker("a", &[])], notifiers: vec![] };
    assert_eq!(
        validate_config(&config, &vec![]).unwrap(),
        vec!["Notifiers are not declared. You will not get notifications.".to_string()]
    );
}

#[test]
fn repeated_identifiers_are_not_consistent() {
    let config = FileConfig { checkers: vec![checker("a", &[]), checker("a", &[])], notifiers: vec![] };
    assert!(!is_consistent(&config));
    match run(config, &vec![]) {
        Err(ConfigValidationError::DuplicateIdentifier) => {}
        other => panic!("unexpected {:?}", other.err()),
    }
}

#[test]
fn watch_is_prepared_for_a_valid_config() {
    let config = FileConfig { checkers: vec![checker("a", &["n"]), checker("b", &["n"])], notifiers: vec![command("n", "true")] };
    let watch = run(config, &vec![]).unwrap();
    assert_eq!(watch.probes.len(), 2);
    assert_eq!(watch.probes[1].checker_id, "b");
    assert!(watch.warnings.is_empty());
    assert_eq!(watch.reactor.state_of("b"), Some(hellcheck::reactor::State::Up));
}
