use hellcheck::config::{BasicAuth, CheckerConfig, Interval};
use hellcheck::reactor::State;
use hellcheck::watcher::{basic_header_value, build_authorization_header_value, build_probe, build_request, classify};

fn checker(auth: Option<BasicAuth>) -> CheckerConfig {
    CheckerConfig {
        id: "svc".to_owned(),
        url: "https://svc.example/health".to_owned(),
        interval: Interval { secs: 5, nanos: 0 },
        notifiers: vec![],
        basic_auth: auth,
    }
}

#[test]
fn basic_auth_header_is_base64_of_credentials() {
    let auth = BasicAuth { username: "user".to_owned(), password: "pass".to_owned() };
    assert_eq!(build_authorization_header_value(&auth), "Basic dXNlcjpwYXNz");
    let req = build_request(&checker(Some(auth)));
    assert_eq!(req.url, "https://svc.example/health");
    assert_eq!(req.authorization, Some("Basic dXNlcjpwYXNz".to_owned()));
}

#[test]
fn no_header_without_credentials() {
    let req = build_request(&checker(None));
    assert_eq!(req.authorization, None);
}

#[test]
fn header_value_prefix() {
    assert_eq!(basic_header_value("QWxhZGRpbjpvcGVuIHNlc2FtZQ=="), "Basic QWxhZGRpbjpvcGVuIHNlc2FtZQ==");
}

#[test]
fn only_status_200_is_up() {
    assert_eq!(classify(Some(200)), State::Up);
    assert_eq!(classify(Some(201)), State::Down);
    assert_eq!(classify(Some(500)), State::Down);
    assert_eq!(classify(None), State::Down);
}

#[test]
fn probe_loops_keep_their_own_interval() {
    let fast = CheckerConfig { interval: Interval { secs: 1, nanos: 0 }, ..checker(None) };
    let slow = checker(None);
    let p_fast = build_probe(&fast);
    let p_slow = build_probe(&slow);
    assert_eq!(p_fast.interval.secs, 1);
    assert_eq!(p_slow.interval.secs, 5);
    let m = p_slow.observe(Some(200));
    assert_eq!(m.checker_id, "svc");
    assert_eq!(m.state, State::Up);
    assert_eq!(p_fast.observe(Some(503)).state, State::Down);
}
