use hellcheck::config::{CommandNotifierConfig, HipchatNotifierConfig, SlackNotifierConfig, TelegramNotifierConfig};
use hellcheck::notifiers::{hipchat, slack, CommandNotifier, Delivery, HipchatNotifier, Notification, Payload, SlackNotifier, TelegramNotifier};
use hellcheck::reactor::State;

fn notification(state: State) -> Notification {
    Notification { checker_id: "site".to_owned(), checker_url: "https://site.example/".to_owned(), state }
}

fn fields(p: &Payload) -> Vec<(String, String)> {
    match p {
        Payload::Object(f) => f.clone(),
        other => panic!("unexpected {:?}", other),
    }
}

fn pair(k: &str, v: &str) -> (String, String) {
    (k.to_owned(), v.to_owned())
}

#[test]
fn telegram_message_names_checker_and_state() {
    let n = TelegramNotifier::from_config(&TelegramNotifierConfig { token: "T0K".to_owned(), chat_id: "77".to_owned() });
    match n.delivery(&notification(State::Up)) {
        Delivery::Post { url, payload } => {
            assert_eq!(url, "https://api.telegram.org/botT0K/sendMessage");
            assert_eq!(fields(&payload), vec![pair("chat_id", "77"), pair("text", "site is up \u{1F388}\nhttps://site.example/")]);
        }
        other => panic!("unexpected {:?}", other),
    }
    match n.delivery(&notification(State::Down)) {
        Delivery::Post { payload, .. } => {
            assert_eq!(fields(&payload)[1], pair("text", "site is down \u{1F525}\nhttps://site.example/"));
        }
        other => panic!("unexpected {:?}", other),
    }
}

#[test]
fn slack_payload_has_one_attachment() {
    match slack::build_payload(&notification(State::Down)) {
        Payload::Attachments(list) => {
            assert_eq!(list.len(), 1);
            assert_eq!(
                list[0],
                vec![
                    pair("fallback", "site is down :fire:\nhttps://site.example/"),
                    pair("color", "danger"),
                    pair("title", "site is down :fire:"),
                    pair("title_link", "https://site.example/"),
                ]
            );
        }
        other => panic!("unexpected {:?}", other),
    }
    let n = SlackNotifier::from_config(&SlackNotifierConfig { webhook_url: "https://hooks.example/1".to_owned() });
    match n.delivery(&notification(State::Up)) {
        Delivery::Post { url, payload: Payload::Attachments(list) } => {
            assert_eq!(url, "https://hooks.example/1");
            assert_eq!(list[0][1], pair("color", "good"));
            assert_eq!(list[0][2], pair("title", "site is up :thumbsup:"));
        }
        other => panic!("unexpected {:?}", other),
    }
}

#[test]
fn hipchat_payload_and_room_url() {
    assert_eq!(
        fields(&hipchat::build_payload(&notification(State::Up))),
        vec![
            pair("color", "green"),
            pair("message", "site is up (dealwithit)\nhttps://site.example/"),
            pair("message_format", "text"),
        ]
    );
    assert_eq!(fields(&hipchat::build_payload(&notification(State::Down)))[0], pair("color", "red"));
    let n = HipchatNotifier::from_config(&HipchatNotifierConfig {
        base_url: "https://chat.example".to_owned(),
        token: "tk".to_owned(),
        room_id: "9".to_owned(),
    });
    match n.delivery(&notification(State::Down)) {
        Delivery::Post { url, .. } => assert_eq!(url, "https://chat.example/v2/room/9/notification?auth_token=tk"),
        other => panic!("unexpected {:?}", other),
    }
}

#[test]
fn command_gets_its_environment() {
    let n = CommandNotifier::from_config(&CommandNotifierConfig {
        command: "/usr/bin/notify".to_owned(),
        arguments: vec!["-q".to_owned()],
    });
    match n.delivery(&notification(State::Down)) {
        Delivery::Run { command, arguments, env } => {
            assert_eq!(command, "/usr/bin/notify");
            assert_eq!(arguments, vec!["-q".to_string()]);
            assert_eq!(
                env,
                vec![
                    pair("HELLCHECK_ID", "site"),
                    pair("HELLCHECK_URL", "https://site.example/"),
                    pair("HELLCHECK_OK", "false"),
                ]
            );
        }
        other => panic!("unexpected {:?}", other),
    }
}
