use vstd::prelude::*;

use crate::config::{
    checker_ids, consistent, find_checker, find_notifier, lemma_first_unique, notifier_ids, position,
    FileConfig, NotifierConfig,
};
use crate::notifiers::{configured_delivery, Backend, Delivery, DeliveryView, Notification};

verus! {

/// The health of a checked endpoint.
#[derive(Clone, Copy, Debug, PartialEq, Eq, Structural)]
pub enum State {
    Up,
    Down,
}

/// One observation made by a probe loop.
#[derive(Debug)]
pub struct StateMessage {
    pub checker_id: String,
    pub state: State,
}

/// A notification on its way to one notifier, with the delivery that notifier makes.
#[derive(Debug)]
pub struct Dispatch {
    pub notifier_id: String,
    pub notification: Notification,
    pub delivery: Delivery,
}

pub struct DispatchView {
    pub notifier_id: Seq<char>,
    pub checker_id: Seq<char>,
    pub checker_url: Seq<char>,
    pub state: State,
    pub delivery: DeliveryView,
}

impl View for Dispatch {
    type V = DispatchView;

    open spec fn view(&self) -> DispatchView {
        DispatchView {
            notifier_id: self.notifier_id@,
            checker_id: self.notification.checker_id@,
            checker_url: self.notification.checker_url@,
            state: self.notification.state,
            delivery: self.delivery@,
        }
    }
}

pub open spec fn dispatches_view(ds: Seq<Dispatch>) -> Seq<DispatchView> {
    ds.map_values(|d: Dispatch| d@)
}

/// The configuration of the notifier declared as `id`.
pub open spec fn notifier_named(config: FileConfig, id: Seq<char>) -> NotifierConfig {
    config.notifiers@[position(notifier_ids(config.notifiers@), id)].config
}

/// The round of notifications for the checker at `pos` having turned `state`: one for each
/// notifier the checker names, in the order named.
pub open spec fn round(config: FileConfig, pos: int, state: State) -> Seq<DispatchView> {
    let c = config.checkers@[pos];
    Seq::new(
        c.notifiers@.len(),
        |k: int|
            DispatchView {
                notifier_id: c.notifiers@[k]@,
                checker_id: c.id@,
                checker_url: c.url@,
                state,
                delivery: configured_delivery(notifier_named(config, c.notifiers@[k]@), c.id@, c.url@, state),
            },
    )
}

/// What the reactor makes of the observation `msg` (checker identifier, state) with the state
/// table `table`: the next table, and the notifications to dispatch. A round is dispatched
/// exactly when the observed state differs from the recorded one; the table then records it.
pub open spec fn observe(config: FileConfig, table: Seq<State>, msg: (Seq<char>, State)) -> (Seq<State>, Seq<DispatchView>) {
    let pos = position(checker_ids(config.checkers@), msg.0);
    if pos < 0 {
        (table, seq![])
    } else if table[pos] != msg.1 {
        (table.update(pos, msg.1), round(config, pos, msg.1))
    } else {
        (table.update(pos, msg.1), seq![])
    }
}

/// The table after the observations `msgs`, taken in order.
pub open spec fn replay(config: FileConfig, table: Seq<State>, msgs: Seq<(Seq<char>, State)>) -> Seq<State>
    decreases msgs.len(),
{
    if msgs.len() == 0 {
        table
    } else {
        replay(config, observe(config, table, msgs[0]).0, msgs.drop_first())
    }
}

/// Every notification dispatched for the observations `msgs`, in order.
pub open spec fn dispatched(config: FileConfig, table: Seq<State>, msgs: Seq<(Seq<char>, State)>) -> Seq<DispatchView>
    decreases msgs.len(),
{
    if msgs.len() == 0 {
        seq![]
    } else {
        observe(config, table, msgs[0]).1 + dispatched(config, observe(config, table, msgs[0]).0, msgs.drop_first())
    }
}

/// Every checker starts as up.
pub open spec fn initial_table(config: FileConfig) -> Seq<State> {
    Seq::new(config.checkers@.len(), |i: int| State::Up)
}

/// The single owner of the state table. It takes observations one at a time and says which
/// notifications each one calls for.
pub struct Reactor {
    config: FileConfig,
    backends: Vec<Backend>,
    states: Vec<State>,
}

/// The table with every checker of `config` up.
fn build_initial_states(config: &FileConfig) -> (r: Vec<State>)
    ensures
        r@ == initial_table(*config),
{
    let mut states: Vec<State> = Vec::new();
    let mut i: usize = 0;
    while i < config.checkers.len()
        invariant
            0 <= i <= config.checkers@.len(),
            states@ == Seq::new(i as nat, |k: int| State::Up),
        decreases config.checkers@.len() - i,
    {
        states.push(State::Up);
        i = i + 1;
        assert(states@ =~= Seq::new(i as nat, |k: int| State::Up));
    }
    states
}

/// One backend for each declared notifier, in declaration order.
fn build_notifiers(config: &FileConfig) -> (r: Vec<Backend>)
    ensures
        r@.len() == config.notifiers@.len(),
        forall|j: int| 0 <= j < r@.len() ==> #[trigger] r@[j].built_from(config.notifiers@[j].config),
{
    let mut backends: Vec<Backend> = Vec::new();
    let mut i: usize = 0;
    while i < config.notifiers.len()
        invariant
            0 <= i <= config.notifiers@.len(),
            backends@.len() == i,
            forall|j: int| 0 <= j < i ==> #[trigger] backends@[j].built_from(config.notifiers@[j].config),
        decreases config.notifiers@.len() - i,
    {
        backends.push(Backend::from_config(&config.notifiers[i].config));
        i = i + 1;
    }
    backends
}

fn build_notification(id: &String, url: &String, state: State) -> (r: Notification)
    ensures
        r.checker_id@ == id@,
        r.checker_url@ == url@,
        r.state == state,
{
    Notification { checker_id: id.clone(), checker_url: url.clone(), state }
}

impl Reactor {
    pub closed spec fn config(&self) -> FileConfig {
        self.config
    }

    /// The recorded state of each checker, in the order of the configuration.
    pub closed spec fn table(&self) -> Seq<State> {
        self.states@
    }

    pub closed spec fn wf(&self) -> bool {
        &&& consistent(self.config)
        &&& self.states@.len() == self.config.checkers@.len()
        &&& self.backends@.len() == self.config.notifiers@.len()
        &&& forall|j: int|
            0 <= j < self.backends@.len() ==> #[trigger] self.backends@[j].built_from(self.config.notifiers@[j].config)
    }

    /// A reactor for `config` with every checker up and every notifier built.
    pub fn new(config: FileConfig) -> (r: Reactor)
        requires
            consistent(config),
        ensures
            r.wf(),
            r.config() == config,
            r.table() == initial_table(config),
    {
        let states = build_initial_states(&config);
        let backends = build_notifiers(&config);
        Reactor { config, backends, states }
    }

    /// The recorded state of the checker `id`, if it is declared.
    pub fn state_of(&self, id: &str) -> (r: Option<State>)
        requires
            self.wf(),
        ensures
            r is None <==> !checker_ids(self.config().checkers@).contains(id@),
            r matches Some(s) ==> s == self.table()[position(checker_ids(self.config().checkers@), id@)],
    {
        match find_checker(&self.config.checkers, id) {
            Some(i) => {
                proof { lemma_first_unique(checker_ids(self.config.checkers@), id@, i as int); }
                Some(self.states[i])
            },
            None => None,
        }
    }

    /// Takes one observation: records it, and returns the notifications it calls for
    /// (none unless the checker's state changed). `None` when no checker is named so.
    pub fn handle(&mut self, msg: &StateMessage) -> (r: Option<Vec<Dispatch>>)
        requires
            old(self).wf(),
        ensures
            final(self).wf(),
            final(self).config() == old(self).config(),
            r is None <==> !checker_ids(old(self).config().checkers@).contains(msg.checker_id@),
            final(self).table() == observe(old(self).config(), old(self).table(), (msg.checker_id@, msg.state)).0,
            r matches Some(ds) ==> dispatches_view(ds@) == observe(
                old(self).config(),
                old(self).table(),
                (msg.checker_id@, msg.state),
            ).1,
    {
        let pos = match find_checker(&self.config.checkers, msg.checker_id.as_str()) {
            Some(p) => p,
            None => {
                proof {
                    crate::config::lemma_position(checker_ids(self.config.checkers@), msg.checker_id@);
                }
                return None;
            },
        };
        proof { lemma_first_unique(checker_ids(self.config.checkers@), msg.checker_id@, pos as int); }
        let prev = self.states[pos];
        let mut out: Vec<Dispatch> = Vec::new();
        if prev != msg.state {
            let ghost cfg = self.config;
            let checker = &self.config.checkers[pos];
            let mut k: usize = 0;
            while k < checker.notifiers.len()
                invariant
                    self.wf(),
                    self.config == cfg,
                    0 <= pos < cfg.checkers@.len(),
                    *checker == cfg.checkers@[pos as int],
                    0 <= k <= checker.notifiers@.len(),
                    dispatches_view(out@) == round(cfg, pos as int, msg.state).subrange(0, k as int),
                decreases checker.notifiers@.len() - k,
            {
                let nid = &checker.notifiers[k];
                assert(crate::config::references_declared(cfg));
                assert(notifier_ids(cfg.notifiers@).contains(cfg.checkers@[pos as int].notifiers@[k as int]@));
                let j = match find_notifier(&self.config.notifiers, nid.as_str()) {
                    Some(j) => j,
                    None => {
                        proof { assert(false); }
                        return None;
                    },
                };
                proof { lemma_first_unique(notifier_ids(cfg.notifiers@), nid@, j as int); }
                let notification = build_notification(&checker.id, &checker.url, msg.state);
                let delivery = self.backends[j].delivery(&notification);
                let d = Dispatch { notifier_id: nid.clone(), notification, delivery };
                assert(self.backends@[j as int].built_from(cfg.notifiers@[j as int].config));
                assert(nid@ == cfg.checkers@[pos as int].notifiers@[k as int]@);
                assert(notifier_named(cfg, nid@) == cfg.notifiers@[j as int].config);
                assert(d.delivery@ == configured_delivery(cfg.notifiers@[j as int].config, checker.id@, checker.url@, msg.state));
                assert(d@ == round(cfg, pos as int, msg.state)[k as int]);
                let ghost before = out@;
                out.push(d);
                assert(out@ == before.push(d));
                assert(dispatches_view(out@) =~= dispatches_view(before).push(d@));
                k = k + 1;
                assert(dispatches_view(out@) =~= round(cfg, pos as int, msg.state).subrange(0, k as int));
            }
            assert(round(cfg, pos as int, msg.state).subrange(0, k as int) =~= round(cfg, pos as int, msg.state));
        } else {
            assert(dispatches_view(out@) =~= seq![]);
        }
        self.states.set(pos, msg.state);
        Some(out)
    }
}

/// A round is dispatched for an observation exactly when it differs from the state recorded
/// for its checker before it; the round goes to every notifier the checker names, in order.
pub proof fn lemma_round_iff_changed(config: FileConfig, table: Seq<State>, msg: (Seq<char>, State))
    requires
        consistent(config),
        table.len() == config.checkers@.len(),
        checker_ids(config.checkers@).contains(msg.0),
    ensures
        ({
            let pos = position(checker_ids(config.checkers@), msg.0);
            &&& 0 <= pos < table.len()
            &&& observe(config, table, msg).1 == if table[pos] != msg.1 {
                round(config, pos, msg.1)
            } else {
                Seq::<DispatchView>::empty()
            }
            &&& observe(config, table, msg).1.len() == if table[pos] != msg.1 {
                config.checkers@[pos].notifiers@.len()
            } else {
                0
            }
            &&& observe(config, table, msg).0[pos] == msg.1
        }),
{
    crate::config::lemma_position(checker_ids(config.checkers@), msg.0);
}

/// Once an observation is taken, taking the same observation again, any number of times,
/// dispatches nothing and leaves the table as it is.
pub proof fn lemma_repeats_are_silent(config: FileConfig, table: Seq<State>, msg: (Seq<char>, State), n: nat)
    requires
        table.len() == config.checkers@.len(),
    ensures
        dispatched(config, observe(config, table, msg).0, Seq::new(n, |i: int| msg)) == Seq::<DispatchView>::empty(),
        replay(config, observe(config, table, msg).0, Seq::new(n, |i: int| msg)) == observe(config, table, msg).0,
    decreases n,
{
    let settled = observe(config, table, msg).0;
    let pos = position(checker_ids(config.checkers@), msg.0);
    crate::config::lemma_position(checker_ids(config.checkers@), msg.0);
    assert(observe(config, settled, msg).0 =~= settled);
    assert(observe(config, settled, msg).1 =~= Seq::<DispatchView>::empty());
    if n > 0 {
        lemma_repeats_are_silent(config, table, msg, (n - 1) as nat);
        assert(Seq::new(n, |i: int| msg).drop_first() =~= Seq::new((n - 1) as nat, |i: int| msg));
        assert(Seq::new(n, |i: int| msg)[0] == msg);
    }
}

/// Before any observation every checker is up. From there the first down observation of a
/// checker dispatches one round, and the up observation after it one more.
pub proof fn lemma_first_down_then_up(config: FileConfig, id: Seq<char>)
    requires
        consistent(config),
        checker_ids(config.checkers@).contains(id),
    ensures
        ({
            let pos = position(checker_ids(config.checkers@), id);
            let start = initial_table(config);
            &&& 0 <= pos < start.len()
            &&& start[pos] == State::Up
            &&& dispatched(config, start, seq![(id, State::Up)]) == Seq::<DispatchView>::empty()
            &&& dispatched(config, start, seq![(id, State::Down)]) == round(config, pos, State::Down)
            &&& dispatched(config, start, seq![(id, State::Down), (id, State::Up)])
                == round(config, pos, State::Down) + round(config, pos, State::Up)
        }),
{
    let pos = position(checker_ids(config.checkers@), id);
    let start = initial_table(config);
    crate::config::lemma_position(checker_ids(config.checkers@), id);
    let one_up = seq![(id, State::Up)];
    let one_down = seq![(id, State::Down)];
    let two = seq![(id, State::Down), (id, State::Up)];
    assert(one_up.drop_first() =~= Seq::<(Seq<char>, State)>::empty());
    assert(one_down.drop_first() =~= Seq::<(Seq<char>, State)>::empty());
    assert(two.drop_first() =~= one_up);
    assert(start[pos] == State::Up);
    let after_up = observe(config, start, (id, State::Up)).0;
    let after_down = observe(config, start, (id, State::Down)).0;
    assert(dispatched(config, after_up, one_up.drop_first()) == Seq::<DispatchView>::empty());
    assert(dispatched(config, after_down, one_down.drop_first()) == Seq::<DispatchView>::empty());
    assert(observe(config, start, (id, State::Up)).1 == Seq::<DispatchView>::empty());
    assert(dispatched(config, start, one_up) =~= Seq::<DispatchView>::empty());
    assert(dispatched(config, start, one_down) =~= round(config, pos, State::Down));
    assert(after_down[pos] == State::Down);
    let after_both = observe(config, after_down, (id, State::Up)).0;
    assert(dispatched(config, after_both, one_up.drop_first()) == Seq::<DispatchView>::empty());
    assert(dispatched(config, after_down, one_up) =~= round(config, pos, State::Up));
}

/// An observation of one checker does not change what an observation of another checker
/// dispatches: each round depends on its own checker's recorded state alone.
pub proof fn lemma_other_checker_unaffected(
    config: FileConfig,
    table: Seq<State>,
    a: (Seq<char>, State),
    b: (Seq<char>, State),
)
    requires
        table.len() == config.checkers@.len(),
        a.0 != b.0,
    ensures
        observe(config, observe(config, table, a).0, b).1 == observe(config, table, b).1,
{
    crate::config::lemma_position(checker_ids(config.checkers@), a.0);
    crate::config::lemma_position(checker_ids(config.checkers@), b.0);
}

/// Observations of checkers that name no notifier dispatch nothing.
pub proof fn lemma_no_notifiers_silent(config: FileConfig, table: Seq<State>, msgs: Seq<(Seq<char>, State)>)
    requires
        table.len() == config.checkers@.len(),
        forall|i: int|
            0 <= i < msgs.len() ==> ({
                let pos = position(checker_ids(config.checkers@), #[trigger] msgs[i].0);
                pos >= 0 ==> config.checkers@[pos].notifiers@.len() == 0
            }),
    ensures
        dispatched(config, table, msgs) == Seq::<DispatchView>::empty(),
    decreases msgs.len(),
{
    if msgs.len() > 0 {
        let m = msgs[0];
        crate::config::lemma_position(checker_ids(config.checkers@), m.0);
        assert(observe(config, table, m).1 =~= Seq::<DispatchView>::empty());
        assert forall|i: int| 0 <= i < msgs.drop_first().len() implies ({
            let pos = position(checker_ids(config.checkers@), #[trigger] msgs.drop_first()[i].0);
            pos >= 0 ==> config.checkers@[pos].notifiers@.len() == 0
        }) by {
            assert(msgs.drop_first()[i] == msgs[i + 1]);
        }
        lemma_no_notifiers_silent(config, observe(config, table, m).0, msgs.drop_first());
        assert(dispatched(config, table, msgs) =~= Seq::<DispatchView>::empty());
    }
}

/// After a run of observations of one declared checker, the table holds the last one for it
/// and the recorded state of every other checker is unchanged.
pub proof fn lemma_table_holds_latest(config: FileConfig, table: Seq<State>, id: Seq<char>, msgs: Seq<(Seq<char>, State)>)
    requires
        table.len() == config.checkers@.len(),
        checker_ids(config.checkers@).contains(id),
        msgs.len() > 0,
        forall|i: int| 0 <= i < msgs.len() ==> #[trigger] msgs[i].0 == id,
    ensures
        ({
            let pos = position(checker_ids(config.checkers@), id);
            let end = replay(config, table, msgs);
            &&& end.len() == table.len()
            &&& end[pos] == msgs.last().1
            &&& forall|j: int| 0 <= j < table.len() && j != pos ==> end[j] == table[j]
        }),
    decreases msgs.len(),
{
    crate::config::lemma_position(checker_ids(config.checkers@), id);
    let pos = position(checker_ids(config.checkers@), id);
    let next = observe(config, table, msgs[0]).0;
    assert(msgs[0].0 == id);
    assert(next == table.update(pos, msgs[0].1));
    if msgs.len() > 1 {
        assert forall|i: int| 0 <= i < msgs.drop_first().len() implies #[trigger] msgs.drop_first()[i].0 == id by {
            assert(msgs.drop_first()[i] == msgs[i + 1]);
        }
        lemma_table_holds_latest(config, next, id, msgs.drop_first());
        assert(msgs.drop_first().last() == msgs.last());
    } else {
        assert(msgs.drop_first() =~= Seq::<(Seq<char>, State)>::empty());
        assert(replay(config, table, msgs) == replay(config, next, msgs.drop_first()));
        assert(replay(config, next, msgs.drop_first()) == next);
    }
}

} // verus!
