use vstd::prelude::*;

verus! {

/// How long a probe loop waits after one probe before starting the next,
/// as seconds and nanoseconds.
#[derive(Clone, Copy, Debug, PartialEq, Eq, Structural)]
pub struct Interval {
    pub secs: u64,
    pub nanos: u32,
}

impl Interval {
    pub open spec fn wf(self) -> bool {
        self.nanos < 1_000_000_000
    }

    /// The interval used when a checker sets none: ten seconds.
    pub fn default_interval() -> (r: Interval)
        ensures
            r.secs == 10,
            r.nanos == 0,
    {
        Interval { secs: 10, nanos: 0 }
    }
}

/// Credentials sent with every probe of a checker.
#[derive(Clone, Debug)]
pub struct BasicAuth {
    pub username: String,
    pub password: String,
}

/// A monitored endpoint. `url` is the endpoint's URL in its canonical text form.
#[derive(Clone, Debug)]
pub struct CheckerConfig {
    pub id: String,
    pub url: String,
    pub interval: Interval,
    pub notifiers: Vec<String>,
    pub basic_auth: Option<BasicAuth>,
}

#[derive(Clone, Debug)]
pub struct TelegramNotifierConfig {
    pub token: String,
    pub chat_id: String,
}

#[derive(Clone, Debug)]
pub struct SlackNotifierConfig {
    pub webhook_url: String,
}

#[derive(Clone, Debug)]
pub struct HipchatNotifierConfig {
    pub base_url: String,
    pub token: String,
    pub room_id: String,
}

#[derive(Clone, Debug)]
pub struct CommandNotifierConfig {
    pub command: String,
    pub arguments: Vec<String>,
}

/// Backend-specific settings of a notifier.
#[derive(Clone, Debug)]
pub enum NotifierConfig {
    Telegram(TelegramNotifierConfig),
    Command(CommandNotifierConfig),
    Hipchat(HipchatNotifierConfig),
    Slack(SlackNotifierConfig),
}

/// A declared notifier: its identifier and its backend settings.
#[derive(Clone, Debug)]
pub struct Notifier {
    pub id: String,
    pub config: NotifierConfig,
}

/// The whole configuration: checkers and notifiers, each in declaration order.
#[derive(Clone, Debug)]
pub struct FileConfig {
    pub checkers: Vec<CheckerConfig>,
    pub notifiers: Vec<Notifier>,
}

pub enum NotifierConfigView {
    Telegram { token: Seq<char>, chat_id: Seq<char> },
    Command { command: Seq<char>, arguments: Seq<Seq<char>> },
    Hipchat { base_url: Seq<char>, token: Seq<char>, room_id: Seq<char> },
    Slack { webhook_url: Seq<char> },
}

impl View for NotifierConfig {
    type V = NotifierConfigView;

    open spec fn view(&self) -> NotifierConfigView {
        match self {
            NotifierConfig::Telegram(c) => NotifierConfigView::Telegram { token: c.token@, chat_id: c.chat_id@ },
            NotifierConfig::Command(c) => NotifierConfigView::Command {
                command: c.command@,
                arguments: c.arguments@.map_values(|a: String| a@),
            },
            NotifierConfig::Hipchat(c) => NotifierConfigView::Hipchat {
                base_url: c.base_url@,
                token: c.token@,
                room_id: c.room_id@,
            },
            NotifierConfig::Slack(c) => NotifierConfigView::Slack { webhook_url: c.webhook_url@ },
        }
    }
}

impl View for Notifier {
    type V = (Seq<char>, NotifierConfigView);

    open spec fn view(&self) -> (Seq<char>, NotifierConfigView) {
        (self.id@, self.config@)
    }
}

pub struct CheckerConfigView {
    pub id: Seq<char>,
    pub url: Seq<char>,
    pub interval: Interval,
    pub notifiers: Seq<Seq<char>>,
    pub basic_auth: Option<(Seq<char>, Seq<char>)>,
}

impl View for CheckerConfig {
    type V = CheckerConfigView;

    open spec fn view(&self) -> CheckerConfigView {
        CheckerConfigView {
            id: self.id@,
            url: self.url@,
            interval: self.interval,
            notifiers: self.notifiers@.map_values(|n: String| n@),
            basic_auth: match self.basic_auth {
                Some(a) => Some((a.username@, a.password@)),
                None => None,
            },
        }
    }
}

/// The identifiers of `checkers`, in order.
pub open spec fn checker_ids(checkers: Seq<CheckerConfig>) -> Seq<Seq<char>> {
    checkers.map_values(|c: CheckerConfig| c.id@)
}

/// The identifiers of `notifiers`, in order.
pub open spec fn notifier_ids(notifiers: Seq<Notifier>) -> Seq<Seq<char>> {
    notifiers.map_values(|n: Notifier| n.id@)
}

/// No identifier occurs twice in `ids`.
pub open spec fn unique(ids: Seq<Seq<char>>) -> bool {
    forall|i: int, j: int| 0 <= i < j < ids.len() ==> ids[i] != ids[j]
}

/// `i` is the first position of `id` in `ids`.
pub open spec fn is_first(ids: Seq<Seq<char>>, id: Seq<char>, i: int) -> bool {
    &&& 0 <= i < ids.len()
    &&& ids[i] == id
    &&& forall|j: int| 0 <= j < i ==> ids[j] != id
}

/// The first position of `id` in `ids`, or -1 when it does not occur.
pub open spec fn position(ids: Seq<Seq<char>>, id: Seq<char>) -> int {
    if exists|i: int| is_first(ids, id, i) {
        choose|i: int| is_first(ids, id, i)
    } else {
        -1
    }
}

/// There is only one first position.
pub proof fn lemma_first_unique(ids: Seq<Seq<char>>, id: Seq<char>, i: int)
    requires
        is_first(ids, id, i),
    ensures
        position(ids, id) == i,
{
    let k = position(ids, id);
    assert(is_first(ids, id, k));
    if k < i {
        assert(ids[k] != id);
    } else if i < k {
        assert(ids[i] != id);
    }
}

/// An identifier that does not occur has position -1, and one that does has a first position.
pub proof fn lemma_position(ids: Seq<Seq<char>>, id: Seq<char>)
    ensures
        ids.contains(id) ==> is_first(ids, id, position(ids, id)),
        !ids.contains(id) ==> position(ids, id) == -1,
{
    if ids.contains(id) {
        let w = choose|w: int| 0 <= w < ids.len() && ids[w] == id;
        let i = first_at_most(ids, id, w);
    } else {
        assert(!(exists|i: int| is_first(ids, id, i)));
    }
}

proof fn first_at_most(ids: Seq<Seq<char>>, id: Seq<char>, w: int) -> (i: int)
    requires
        0 <= w < ids.len(),
        ids[w] == id,
    ensures
        is_first(ids, id, i),
    decreases w,
{
    if exists|j: int| 0 <= j < w && ids[j] == id {
        let j = choose|j: int| 0 <= j < w && ids[j] == id;
        first_at_most(ids, id, j)
    } else {
        w
    }
}

/// Every reference holds: each notifier that a checker names is declared.
pub open spec fn references_declared(config: FileConfig) -> bool {
    forall|c: int, k: int|
        0 <= c < config.checkers@.len() && 0 <= k < config.checkers@[c].notifiers@.len()
            ==> notifier_ids(config.notifiers@).contains(#[trigger] config.checkers@[c].notifiers@[k]@)
}

/// The configuration that the watcher and the reactor run on: identifiers unique within
/// their list, every notifier reference declared.
pub open spec fn consistent(config: FileConfig) -> bool {
    &&& unique(checker_ids(config.checkers@))
    &&& unique(notifier_ids(config.notifiers@))
    &&& references_declared(config)
}

/// The position of the first of `checkers` whose identifier is `id`.
pub fn find_checker(checkers: &Vec<CheckerConfig>, id: &str) -> (r: Option<usize>)
    ensures
        r is None ==> !checker_ids(checkers@).contains(id@),
        r matches Some(i) ==> is_first(checker_ids(checkers@), id@, i as int),
{
    let mut i: usize = 0;
    while i < checkers.len()
        invariant
            0 <= i <= checkers@.len(),
            forall|j: int| 0 <= j < i ==> checker_ids(checkers@)[j] != id@,
        decreases checkers@.len() - i,
    {
        if same_text(&checkers[i].id, id) {
            return Some(i);
        }
        i = i + 1;
    }
    proof {
        if checker_ids(checkers@).contains(id@) {
            let w = choose|w: int| 0 <= w < checker_ids(checkers@).len() && checker_ids(checkers@)[w] == id@;
            assert(checker_ids(checkers@)[w] != id@);
        }
    }
    None
}

/// The position of the first of `notifiers` whose identifier is `id`.
pub fn find_notifier(notifiers: &Vec<Notifier>, id: &str) -> (r: Option<usize>)
    ensures
        r is None ==> !notifier_ids(notifiers@).contains(id@),
        r matches Some(i) ==> is_first(notifier_ids(notifiers@), id@, i as int),
{
    let mut i: usize = 0;
    while i < notifiers.len()
        invariant
            0 <= i <= notifiers@.len(),
            forall|j: int| 0 <= j < i ==> notifier_ids(notifiers@)[j] != id@,
        decreases notifiers@.len() - i,
    {
        if same_text(&notifiers[i].id, id) {
            return Some(i);
        }
        i = i + 1;
    }
    proof {
        if notifier_ids(notifiers@).contains(id@) {
            let w = choose|w: int| 0 <= w < notifier_ids(notifiers@).len() && notifier_ids(notifiers@)[w] == id@;
            assert(notifier_ids(notifiers@)[w] != id@);
        }
    }
    None
}

impl FileConfig {
    /// The first checker whose identifier is `id`.
    pub fn get_checker_by_id(&self, id: &str) -> (r: Option<&CheckerConfig>)
        ensures
            r is None <==> !checker_ids(self.checkers@).contains(id@),
            r matches Some(c) ==> *c == self.checkers@[position(checker_ids(self.checkers@), id@)],
    {
        match find_checker(&self.checkers, id) {
            Some(i) => {
                proof { lemma_first_unique(checker_ids(self.checkers@), id@, i as int); }
                Some(&self.checkers[i])
            },
            None => None,
        }
    }

    /// The first notifier whose identifier is `id`.
    pub fn get_notifier_by_id(&self, id: &str) -> (r: Option<&Notifier>)
        ensures
            r is None <==> !notifier_ids(self.notifiers@).contains(id@),
            r matches Some(n) ==> *n == self.notifiers@[position(notifier_ids(self.notifiers@), id@)],
    {
        match find_notifier(&self.notifiers, id) {
            Some(i) => {
                proof { lemma_first_unique(notifier_ids(self.notifiers@), id@, i as int); }
                Some(&self.notifiers[i])
            },
            None => None,
        }
    }
}

/// Whether `s` equals `t`.
pub fn same_text(s: &String, t: &str) -> (r: bool)
    ensures
        r == (s@ == t@),
{
    let owned = t.to_owned();
    *s == owned
}

} // verus!
