use hellcheck::config::{
    BasicAuth, CheckerConfig, CommandNotifierConfig, FileConfig, Interval, Notifier, NotifierConfig,
    TelegramNotifierConfig,
};
use hellcheck::notifiers::Delivery;
use hellcheck::reactor::{Dispatch, Reactor, State, StateMessage};
use hellcheck::validator::is_consistent;

fn checker(id: &str, secs: u64, notifiers: &[&str]) -> CheckerConfig {
    CheckerConfig {
        id: id.to_owned(),
        url: format!("http://{}.example.com/", id),
        interval: Interval { secs, nanos: 0 },
        notifiers: notifiers.iter().map(|n| n.to_string()).collect(),
        basic_auth: None,
    }
}

fn command_notifier(id: &str, command: &str) -> Notifier {
    Notifier {
        id: id.to_owned(),
        config: NotifierConfig::Command(CommandNotifierConfig { command: command.to_owned(), arguments: vec![] }),
    }
}

fn telegram_notifier(id: &str) -> Notifier {
    Notifier {
        id: id.to_owned(),
        config: NotifierConfig::Telegram(TelegramNotifierConfig { token: "TOKEN".to_owned(), chat_id: "1".to_owned() }),
    }
}

fn msg(id: &str, state: State) -> StateMessage {
    StateMessage { checker_id: id.to_owned(), state }
}

fn feed(reactor: &mut Reactor, id: &str, states: &[State]) -> Vec<Vec<Dispatch>> {
    states.iter().map(|s| reactor.handle(&msg(id, *s)).unwrap()).collect()
}

fn env_value(d: &Dispatch, key: &str) -> String {
    match &d.delivery {
        Delivery::Run { env, .. } => env.iter().find(|(k, _)| k == key).unwrap().1.clone(),
        other => panic!("unexpected {:?}", other),
    }
}

#[test]
fn command_notifier_gets_exactly_two_rounds() {
    let config = FileConfig {
        checkers: vec![checker("svc1", 1, &["n1"])],
        notifiers: vec![command_notifier("n1", "/bin/true")],
    };
    assert!(is_consistent(&config));
    let mut reactor = Reactor::new(config);
    let rounds = feed(&mut reactor, "svc1", &[State::Up, State::Up, State::Down, State::Down, State::Up]);
    let sizes: Vec<usize> = rounds.iter().map(|r| r.len()).collect();
    assert_eq!(sizes, vec![0, 0, 1, 0, 1]);
    let down = &rounds[2][0];
    assert_eq!(down.notifier_id, "n1");
    assert_eq!(down.notification.state, State::Down);
    assert_eq!(down.notification.checker_id, "svc1");
    assert_eq!(down.notification.checker_url, "http://svc1.example.com/");
    assert_eq!(env_value(down, "HELLCHECK_OK"), "false");
    assert_eq!(env_value(down, "HELLCHECK_ID"), "svc1");
    assert_eq!(env_value(down, "HELLCHECK_URL"), "http://svc1.example.com/");
    match &down.delivery {
        Delivery::Run { command, arguments, .. } => {
            assert_eq!(command, "/bin/true");
            assert!(arguments.is_empty());
        }
        other => panic!("unexpected {:?}", other),
    }
    let up = &rounds[4][0];
    assert_eq!(up.notification.state, State::Up);
    assert_eq!(env_value(up, "HELLCHECK_OK"), "true");
}

#[test]
fn checker_without_notifiers_dispatches_nothing() {
    let config = FileConfig { checkers: vec![checker("svc2", 1, &[])], notifiers: vec![] };
    let mut reactor = Reactor::new(config);
    let states = [State::Down, State::Up, State::Down, State::Down, State::Up, State::Down];
    for s in states.iter() {
        let round = reactor.handle(&msg("svc2", *s)).unwrap();
        assert!(round.is_empty());
        assert_eq!(reactor.state_of("svc2"), Some(*s));
    }
}

#[test]
fn every_checker_starts_up() {
    let config = FileConfig {
        checkers: vec![checker("a", 1, &["n"]), checker("b", 5, &["n"])],
        notifiers: vec![telegram_notifier("n")],
    };
    let mut reactor = Reactor::new(config);
    assert_eq!(reactor.state_of("a"), Some(State::Up));
    assert_eq!(reactor.state_of("b"), Some(State::Up));
    assert_eq!(reactor.state_of("c"), None);
    assert_eq!(reactor.handle(&msg("a", State::Down)).unwrap().len(), 1);
    assert_eq!(reactor.handle(&msg("a", State::Up)).unwrap().len(), 1);
}

#[test]
fn repeated_observations_are_silent() {
    let config = FileConfig { checkers: vec![checker("a", 1, &["n"])], notifiers: vec![telegram_notifier("n")] };
    let mut reactor = Reactor::new(config);
    let rounds = feed(&mut reactor, "a", &[State::Up, State::Up, State::Up]);
    assert!(rounds.iter().all(|r| r.is_empty()));
    let rounds = feed(&mut reactor, "a", &[State::Down, State::Down, State::Down, State::Down]);
    let sizes: Vec<usize> = rounds.iter().map(|r| r.len()).collect();
    assert_eq!(sizes, vec![1, 0, 0, 0]);
}

#[test]
fn round_covers_every_notifier_and_other_checkers() {
    let config = FileConfig {
        checkers: vec![checker("a", 1, &["x", "y"]), checker("b", 1, &["z"])],
        notifiers: vec![command_notifier("x", "/bin/false"), command_notifier("y", "/bin/true"), telegram_notifier("z")],
    };
    let mut reactor = Reactor::new(config);
    let round = reactor.handle(&msg("a", State::Down)).unwrap();
    let ids: Vec<&str> = round.iter().map(|d| d.notifier_id.as_str()).collect();
    assert_eq!(ids, vec!["x", "y"]);
    let round = reactor.handle(&msg("b", State::Down)).unwrap();
    assert_eq!(round.len(), 1);
    assert_eq!(round[0].notifier_id, "z");
    match &round[0].delivery {
        Delivery::Post { url, .. } => assert_eq!(url, "https://api.telegram.org/botTOKEN/sendMessage"),
        other => panic!("unexpected {:?}", other),
    }
}

#[test]
fn unknown_checker_is_reported() {
    let config = FileConfig { checkers: vec![checker("a", 1, &[])], notifiers: vec![] };
    let mut reactor = Reactor::new(config);
    assert!(reactor.handle(&msg("ghost", State::Down)).is_none());
    assert_eq!(reactor.state_of("a"), Some(State::Up));
}

#[test]
fn lookups_find_declared_items() {
    let mut c = checker("a", 1, &["n"]);
    c.basic_auth = Some(BasicAuth { username: "u".to_owned(), password: "p".to_owned() });
    let config = FileConfig { checkers: vec![c, checker("b", 2, &[])], notifiers: vec![telegram_notifier("n")] };
    assert_eq!(config.get_checker_by_id("b").unwrap().interval.secs, 2);
    assert!(config.get_checker_by_id("c").is_none());
    assert_eq!(config.get_notifier_by_id("n").unwrap().id, "n");
    assert!(config.get_notifier_by_id("m").is_none());
}
