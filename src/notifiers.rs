use vstd::prelude::*;
use vstd::string::*;

use crate::config::NotifierConfig;
use crate::reactor::State;

pub mod command;
pub mod hipchat;
pub mod slack;
pub mod telegram;

pub use self::command::CommandNotifier;
pub use self::hipchat::HipchatNotifier;
pub use self::slack::SlackNotifier;
pub use self::telegram::TelegramNotifier;

verus! {

/// What the reactor hands to a notifier when a checker changes state.
#[derive(Clone, Debug)]
pub struct Notification {
    pub checker_id: String,
    pub checker_url: String,
    pub state: State,
}

/// A JSON object whose values are all strings, as key/value pairs in order.
pub type Fields = Vec<(String, String)>;

/// The body of an HTTP delivery.
#[derive(Clone, Debug)]
pub enum Payload {
    /// A flat object: `{"k": "v", ...}`.
    Object(Fields),
    /// `{"attachments": [{...}, ...]}`.
    Attachments(Vec<Fields>),
}

/// One delivery attempt, as the outside world has to carry it out.
#[derive(Clone, Debug)]
pub enum Delivery {
    /// POST `payload` as JSON to `url`; delivered when the request succeeds.
    Post { url: String, payload: Payload },
    /// Run `command` with `arguments` and the extra environment `env`;
    /// delivered when it exits with status 0.
    Run { command: String, arguments: Vec<String>, env: Fields },
}

pub type FieldsView = Seq<(Seq<char>, Seq<char>)>;

pub enum PayloadView {
    Object(FieldsView),
    Attachments(Seq<FieldsView>),
}

pub enum DeliveryView {
    Post { url: Seq<char>, payload: PayloadView },
    Run { command: Seq<char>, arguments: Seq<Seq<char>>, env: FieldsView },
}

pub open spec fn fields_view(f: Seq<(String, String)>) -> FieldsView {
    f.map_values(|p: (String, String)| (p.0@, p.1@))
}

pub open spec fn strings_view(v: Seq<String>) -> Seq<Seq<char>> {
    v.map_values(|s: String| s@)
}

impl View for Payload {
    type V = PayloadView;

    open spec fn view(&self) -> PayloadView {
        match self {
            Payload::Object(f) => PayloadView::Object(fields_view(f@)),
            Payload::Attachments(a) => PayloadView::Attachments(
                a@.map_values(|f: Fields| fields_view(f@)),
            ),
        }
    }
}

impl View for Delivery {
    type V = DeliveryView;

    open spec fn view(&self) -> DeliveryView {
        match self {
            Delivery::Post { url, payload } => DeliveryView::Post { url: url@, payload: payload@ },
            Delivery::Run { command, arguments, env } => DeliveryView::Run {
                command: command@,
                arguments: strings_view(arguments@),
                env: fields_view(env@),
            },
        }
    }
}

/// A notifier built from its configuration: one of the four backends.
#[derive(Clone, Debug)]
pub enum Backend {
    Telegram(TelegramNotifier),
    Command(CommandNotifier),
    Hipchat(HipchatNotifier),
    Slack(SlackNotifier),
}

/// The delivery that a notifier configured by `config` makes for a change of checker `id`
/// at `url` to `state`.
pub open spec fn configured_delivery(config: NotifierConfig, id: Seq<char>, url: Seq<char>, state: State) -> DeliveryView {
    match config {
        NotifierConfig::Telegram(c) => telegram::telegram_delivery(c.token@, c.chat_id@, id, url, state),
        NotifierConfig::Command(c) => DeliveryView::Run {
            command: c.command@,
            arguments: strings_view(c.arguments@),
            env: command::command_env(id, url, state),
        },
        NotifierConfig::Hipchat(c) => DeliveryView::Post {
            url: hipchat::hipchat_url(c.base_url@, c.room_id@, c.token@),
            payload: PayloadView::Object(hipchat::hipchat_fields(id, url, state)),
        },
        NotifierConfig::Slack(c) => DeliveryView::Post {
            url: c.webhook_url@,
            payload: slack::slack_payload(id, url, state),
        },
    }
}

impl Backend {
    /// The delivery that this backend makes for a change of checker `id` at `url` to `state`.
    pub open spec fn spec_delivery(self, id: Seq<char>, url: Seq<char>, state: State) -> DeliveryView {
        match self {
            Backend::Telegram(b) => telegram::telegram_delivery(b.token@, b.chat_id@, id, url, state),
            Backend::Command(b) => DeliveryView::Run {
                command: b.command@,
                arguments: strings_view(b.arguments@),
                env: command::command_env(id, url, state),
            },
            Backend::Hipchat(b) => DeliveryView::Post {
                url: hipchat::hipchat_url(b.base_url@, b.room_id@, b.token@),
                payload: PayloadView::Object(hipchat::hipchat_fields(id, url, state)),
            },
            Backend::Slack(b) => DeliveryView::Post {
                url: b.webhook_url@,
                payload: slack::slack_payload(id, url, state),
            },
        }
    }

    /// Whether this backend delivers as a notifier configured by `config` does.
    pub open spec fn built_from(self, config: NotifierConfig) -> bool {
        forall|id: Seq<char>, url: Seq<char>, state: State|
            #[trigger] self.spec_delivery(id, url, state) == configured_delivery(config, id, url, state)
    }

    pub fn from_config(config: &NotifierConfig) -> (r: Backend)
        ensures
            r.built_from(*config),
    {
        match config {
            NotifierConfig::Telegram(c) => Backend::Telegram(TelegramNotifier::from_config(c)),
            NotifierConfig::Command(c) => Backend::Command(CommandNotifier::from_config(c)),
            NotifierConfig::Hipchat(c) => Backend::Hipchat(HipchatNotifier::from_config(c)),
            NotifierConfig::Slack(c) => Backend::Slack(SlackNotifier::from_config(c)),
        }
    }

    /// The delivery that reports `notification` through this backend.
    pub fn delivery(&self, notification: &Notification) -> (r: Delivery)
        ensures
            r@ == self.spec_delivery(notification.checker_id@, notification.checker_url@, notification.state),
    {
        match self {
            Backend::Telegram(b) => b.delivery(notification),
            Backend::Command(b) => b.delivery(notification),
            Backend::Hipchat(b) => b.delivery(notification),
            Backend::Slack(b) => b.delivery(notification),
        }
    }
}

/// `a`, then `mid`, then `b`.
pub fn join3(a: &String, mid: &str, b: &String) -> (r: String)
    ensures
        r@ == a@ + mid@ + b@,
{
    let mut r = a.clone();
    r.append(mid);
    r.append(b.as_str());
    r
}

/// `a`, then `b`.
pub fn join2(a: &String, b: &str) -> (r: String)
    ensures
        r@ == a@ + b@,
{
    let mut r = a.clone();
    r.append(b);
    r
}

/// The pair `(key, value)` with `key` taken from a literal.
pub fn field(key: &str, value: String) -> (r: (String, String))
    ensures
        r.0@ == key@,
        r.1@ == value@,
{
    (String::from_str(key), value)
}

/// A copy of `v`, element by element.
pub fn copy_strings(v: &Vec<String>) -> (r: Vec<String>)
    ensures
        r@ == v@,
{
    let mut r: Vec<String> = Vec::new();
    let mut i: usize = 0;
    while i < v.len()
        invariant
            0 <= i <= v@.len(),
            r@ == v@.subrange(0, i as int),
        decreases v@.len() - i,
    {
        r.push(v[i].clone());
        i = i + 1;
    }
    assert(r@ =~= v@);
    r
}

} // verus!
