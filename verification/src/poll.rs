//! The polling loop as a state machine.
//!
//! The loop itself does no work that may block: it is told what happened (an
//! [`Event`]) and answers what to do next (an [`Action`]). Whoever drives it
//! performs the action and comes back with the event that ends it.
//!
//! A tick loads the configuration, queries every endpoint for every
//! subscriber, sends a notification for each piece of news, and then sleeps.
//! A failure anywhere in a tick is noted and the tick goes on. A tick with a
//! failure lengthens the sleep; too many such ticks in a row end the loop.
//! A configuration with a malformed phone number ends it at once.

use crate::cache::{cache_after, event_after};
use crate::config::{goes_to, Config};
use crate::error::ParseError;
use crate::phone::PhoneView;
use crate::response::Response;
use crate::subscribers::{all_unexpired, orders_of, Orders, Subscriptions};
use cheap_alerts::Destination;
use vstd::prelude::*;

verus! {

/// What the loop is waiting for.
#[derive(Clone, Copy, Debug, PartialEq, Eq, Structural)]
pub enum Phase {
    /// Between two ticks.
    Sleeping,
    /// For the configuration to be loaded.
    Loading,
    /// For the answer of an endpoint about a subscriber, both by their place
    /// in the configuration.
    Fetching { user: usize, location: usize },
    /// For a notification to be delivered; the query it came from is kept.
    Sending { user: usize, location: usize },
    /// For nothing: the loop has ended, with this exit code.
    Stopped { code: i32 },
}

/// What happened outside the loop.
#[derive(Debug)]
pub enum Event {
    /// The sleep is over, or the loop has just been made. `now` is the time
    /// in milliseconds since the Unix epoch.
    Wake { now: i64 },
    /// The loop is asked to end. It does so between two ticks.
    Shutdown,
    /// The configuration was loaded.
    ConfigLoaded(Config),
    /// The configuration could not be loaded.
    ConfigFailed,
    /// The configuration was read, and a subscriber's phone number in it is
    /// none. No later tick can mend that: the loop ends.
    ConfigRejected(ParseError),
    /// The endpoint answered.
    Fetched(Response),
    /// The endpoint could not be reached, or its answer could not be read.
    FetchFailed,
    /// The notification was delivered.
    Sent,
    /// The notification could not be delivered.
    SendFailed,
}

/// What the loop asks for.
#[derive(Debug)]
pub enum Action {
    /// Load the configuration.
    LoadConfig,
    /// Query this address.
    Fetch { url: String },
    /// Deliver this message.
    Send { message: String, from_addr: String, dest: Destination },
    /// Sleep for this many milliseconds.
    Sleep { millis: u128 },
    /// End the process with this code.
    Exit { code: i32 },
    /// Nothing new: what was asked for last is still awaited.
    Wait,
}

/// The state of the loop.
pub struct LoopView {
    /// The configuration that the running tick works with.
    pub config: Config,
    /// A changed configuration, which the next tick will work with.
    pub pending: Option<Config>,
    pub caches: Map<PhoneView, Orders>,
    /// How many ticks in a row have failed.
    pub errors: nat,
    /// Whether something has failed in the running tick.
    pub failed: bool,
    /// Whether the loop was asked to end.
    pub stopping: bool,
    pub phase: Phase,
}

/// The query that a tick starts with, if the configuration has any.
pub open spec fn first_pair(config: Config) -> Option<(usize, usize)> {
    if config.users.len() > 0 && config.locations.len() > 0 {
        Some((0, 0))
    } else {
        None
    }
}

/// The query that follows the one of `user` at `location`: the same
/// subscriber at the next endpoint, or the next subscriber at the first.
pub open spec fn pair_after(config: Config, user: usize, location: usize) -> Option<
    (usize, usize),
> {
    if location + 1 < config.locations.len() {
        Some((user, (location + 1) as usize))
    } else if user + 1 < config.users.len() {
        Some(((user + 1) as usize, 0))
    } else {
        None
    }
}

/// How many queries a tick makes: one for every subscriber at every
/// endpoint.
pub open spec fn queries(config: Config) -> nat {
    (config.users.len() * config.locations.len()) as nat
}

/// The `k`-th query of a tick, counted from zero: the subscribers in their
/// order, and for each subscriber the endpoints in theirs.
pub open spec fn pair_at(config: Config, k: nat) -> (usize, usize) {
    (
        (k as int / config.locations.len() as int) as usize,
        (k as int % config.locations.len() as int) as usize,
    )
}

/// Whether a tick that failed after `errors` failed ticks in a row ends the
/// loop: the count would pass the limit.
pub open spec fn gives_up(errors: nat, failed: bool, limit: nat) -> bool {
    failed && errors >= limit
}

/// The count of failed ticks in a row after one more tick.
pub open spec fn errors_after(errors: nat, failed: bool) -> nat {
    if failed {
        errors + 1
    } else {
        0
    }
}

/// The sleep after a tick: the interval, times the count of failed ticks in
/// a row where the tick failed.
pub open spec fn backoff(interval: nat, errors: nat, failed: bool) -> nat {
    if failed {
        interval * errors
    } else {
        interval
    }
}

impl LoopView {
    /// The state with this phase.
    pub open spec fn at(self, phase: Phase) -> LoopView {
        LoopView { phase, ..self }
    }

    /// The state after something has failed in the tick.
    pub open spec fn with_failure(self) -> LoopView {
        LoopView { failed: true, ..self }
    }

    /// The state at the end of a tick.
    pub open spec fn finished(self) -> LoopView {
        if gives_up(self.errors, self.failed, self.config.consecutive_errors_limit as nat) {
            self.at(Phase::Stopped { code: 1 })
        } else {
            LoopView {
                errors: errors_after(self.errors, self.failed),
                phase: if self.stopping {
                    Phase::Stopped { code: 0 }
                } else {
                    Phase::Sleeping
                },
                ..self
            }
        }
    }

    /// The state when the tick goes on to this query, or ends without one.
    pub open spec fn proceeded(self, pair: Option<(usize, usize)>) -> LoopView {
        match pair {
            Some((user, location)) => self.at(Phase::Fetching { user, location }),
            None => self.finished(),
        }
    }

    /// The state at the start of a tick: a changed configuration takes
    /// effect, and every cache loses its stale records.
    pub open spec fn woken(self, now: int) -> LoopView {
        LoopView {
            config: match self.pending {
                Some(next) => next,
                None => self.config,
            },
            pending: None,
            caches: all_unexpired(self.caches, now),
            failed: false,
            phase: Phase::Loading,
            ..self
        }
    }

    /// The state after a configuration was loaded: one with another
    /// fingerprint is kept for the next tick.
    pub open spec fn loaded(self, next: Config) -> LoopView {
        if next.last_changed != self.config.last_changed {
            LoopView { pending: Some(next), ..self }
        } else {
            self
        }
    }

    /// The phone number that the query of `user` is about.
    pub open spec fn phone(self, user: usize) -> PhoneView {
        self.config.users[user as int].phone_number@
    }

    /// The news in an answer to the query of `user`, if any.
    pub open spec fn news(self, user: usize, response: Response) -> Option<
        (Seq<char>, crate::status::Status),
    > {
        event_after(orders_of(self.caches, self.phone(user)), response)
    }

    /// The state after the answer to the query of `user` was taken into the
    /// subscriber's cache.
    pub open spec fn observed(self, user: usize, response: Response) -> LoopView {
        LoopView {
            caches: self.caches.insert(
                self.phone(user),
                cache_after(orders_of(self.caches, self.phone(user)), response),
            ),
            ..self
        }
    }

    /// Whether the event ends what the loop is waiting for.
    pub open spec fn awaits(self, event: Event) -> bool {
        match self.phase {
            Phase::Sleeping => event is Wake || event is Shutdown,
            Phase::Loading => {
                event is ConfigLoaded || event is ConfigFailed || event is ConfigRejected
            },
            Phase::Fetching { .. } => event is Fetched || event is FetchFailed,
            Phase::Sending { .. } => event is Sent || event is SendFailed,
            Phase::Stopped { .. } => false,
        }
    }

    /// The state after an event.
    ///
    /// An event that does not end what the loop is waiting for changes
    /// nothing, but for a request to end the loop: that is noted, and takes
    /// effect at the end of the tick.
    pub open spec fn stepped(self, event: Event) -> LoopView {
        match (self.phase, event) {
            (Phase::Sleeping, Event::Wake { now }) => self.woken(now as int),
            (Phase::Sleeping, Event::Shutdown) => self.at(Phase::Stopped { code: 0 }),
            (Phase::Loading, Event::ConfigLoaded(next)) => self.loaded(next).proceeded(
                first_pair(self.config),
            ),
            (Phase::Loading, Event::ConfigFailed) => self.with_failure().proceeded(
                first_pair(self.config),
            ),
            (Phase::Loading, Event::ConfigRejected(_)) => self.with_failure().at(
                Phase::Stopped { code: 1 },
            ),
            (Phase::Fetching { user, location }, Event::Fetched(response)) => {
                if self.news(user, response) is Some {
                    self.observed(user, response).at(Phase::Sending { user, location })
                } else {
                    self.observed(user, response).proceeded(
                        pair_after(self.config, user, location),
                    )
                }
            },
            (Phase::Fetching { user, location }, Event::FetchFailed) => {
                self.with_failure().proceeded(pair_after(self.config, user, location))
            },
            (Phase::Sending { user, location }, Event::Sent) => self.proceeded(
                pair_after(self.config, user, location),
            ),
            (Phase::Sending { user, location }, Event::SendFailed) => {
                self.with_failure().proceeded(pair_after(self.config, user, location))
            },
            (Phase::Stopped { .. }, _) => self,
            (_, Event::Shutdown) => LoopView { stopping: true, ..self },
            _ => self,
        }
    }

    /// Whether `action` is what the loop asks for on reaching its phase, for
    /// every phase but `Sending`: what is sent depends on the news.
    pub open spec fn announces(self, action: Action) -> bool {
        match self.phase {
            Phase::Loading => action is LoadConfig,
            Phase::Fetching { user, location } => {
                &&& action matches Action::Fetch { url }
                &&& url@ == self.config.locations[location as int].url@ + self.phone(user).dashed()
            },
            Phase::Sending { .. } => false,
            Phase::Sleeping => {
                &&& action matches Action::Sleep { millis }
                &&& millis == backoff(self.config.check_interval as nat, self.errors, self.failed)
            },
            Phase::Stopped { code } => action == (Action::Exit { code }),
        }
    }

    /// Whether `action` is what the loop asks for when `event` has taken it
    /// from the state `self` to the state `after`.
    pub open spec fn asks(self, event: Event, after: LoopView, action: Action) -> bool {
        if self.phase is Stopped {
            after.announces(action)
        } else if !self.awaits(event) {
            action is Wait
        } else if let Phase::Sending { user, .. } = after.phase {
            &&& action matches Action::Send { message, from_addr, dest }
            &&& event matches Event::Fetched(response)
            &&& self.news(user, response) matches Some(news)
            &&& message@ == news.1.message_text()
            &&& from_addr@ == after.config.from_addr@
            &&& goes_to(dest, after.config.users[user as int])
        } else {
            after.announces(action)
        }
    }
}

impl LoopView {
    /// The state after a sequence of events, each taken by one step.
    pub open spec fn ran(self, events: Seq<Event>) -> LoopView
        decreases events.len(),
    {
        if events.len() == 0 {
            self
        } else {
            self.ran(events.drop_last()).stepped(events.last())
        }
    }

    /// Whether a tick is running.
    pub open spec fn in_tick(self) -> bool {
        self.phase is Loading || self.phase is Fetching || self.phase is Sending
    }

    /// Whether the events are one whole tick from this state: the loop
    /// sleeps, the first event wakes it, and it is in the tick from then on
    /// until the last event ends the tick.
    pub open spec fn runs_a_tick(self, events: Seq<Event>) -> bool {
        &&& self.phase == Phase::Sleeping
        &&& events.len() >= 1
        &&& events[0] is Wake
        &&& forall|n: int| 1 <= n < events.len() ==> (#[trigger] self.ran(events.take(n))).in_tick()
        &&& !self.ran(events).in_tick()
    }

    /// The state after a sequence of ticks.
    pub open spec fn ran_ticks(self, ticks: Seq<Seq<Event>>) -> LoopView
        decreases ticks.len(),
    {
        if ticks.len() == 0 {
            self
        } else {
            self.ran_ticks(ticks.drop_last()).ran(ticks.last())
        }
    }

    /// Whether each of the ticks is one whole tick from the state that the
    /// ticks before it lead to, leaves the configuration alone, and ends with
    /// a failure noted.
    pub open spec fn runs_failing_ticks(self, ticks: Seq<Seq<Event>>) -> bool {
        forall|k: int|
            0 <= k < ticks.len() ==> {
                &&& (#[trigger] self.ran_ticks(ticks.take(k))).runs_a_tick(ticks[k])
                &&& leaves_alone(ticks[k], self.config.last_changed)
                &&& self.ran_ticks(ticks.take(k)).ran(ticks[k]).failed
            }
    }
}

/// Whether the event neither asks the loop to end, nor rejects the
/// configuration, nor brings one with another fingerprint than `stamp`.
pub open spec fn keeps_going(event: Event, stamp: u64) -> bool {
    match event {
        Event::Shutdown | Event::ConfigRejected(_) => false,
        Event::ConfigLoaded(config) => config.last_changed == stamp,
        _ => true,
    }
}

/// Whether none of the events asks the loop to end, rejects the
/// configuration or brings one with another fingerprint than `stamp`.
pub open spec fn leaves_alone(events: Seq<Event>, stamp: u64) -> bool {
    forall|i: int| 0 <= i < events.len() ==> keeps_going(#[trigger] events[i], stamp)
}

/// A tick starts with its first query, where it has any.
pub proof fn lemma_first_query(config: Config)
    ensures
        first_pair(config) == (if queries(config) > 0 {
            Some(pair_at(config, 0))
        } else {
            None
        }),
{
    let users = config.users.len() as int;
    let locations = config.locations.len() as int;
    if users > 0 && locations > 0 {
        assert(users * locations > 0) by (nonlinear_arith)
            requires
                users > 0,
                locations > 0,
        ;
        vstd::arithmetic::div_mod::lemma_fundamental_div_mod_converse(0, locations, 0, 0);
    } else {
        assert(users * locations == 0) by (nonlinear_arith)
            requires
                users == 0 || locations == 0,
        ;
    }
}

/// The queries of a tick are the pairs of a subscriber and an endpoint, each
/// of them once: the `k`-th query is followed by the next one, and the last
/// one by none.
pub proof fn lemma_queries_cover_every_pair(config: Config, k: nat)
    requires
        k < queries(config),
    ensures
        pair_at(config, k).0 < config.users.len(),
        pair_at(config, k).1 < config.locations.len(),
        pair_after(config, pair_at(config, k).0, pair_at(config, k).1) == (if k + 1 < queries(
            config,
        ) {
            Some(pair_at(config, k + 1))
        } else {
            None
        }),
{
    let users = config.users.len() as int;
    let locations = config.locations.len() as int;
    let user = k as int / locations;
    let location = k as int % locations;
    assert(locations > 0) by (nonlinear_arith)
        requires
            0 <= k < users * locations,
            0 <= locations,
    ;
    vstd::arithmetic::div_mod::lemma_fundamental_div_mod(k as int, locations);
    vstd::arithmetic::div_mod::lemma_mod_pos_bound(k as int, locations);
    assert(0 <= user < users) by (nonlinear_arith)
        requires
            0 <= k < users * locations,
            k == locations * user + location,
            0 <= location < locations,
    ;
    if location + 1 < locations {
        vstd::arithmetic::div_mod::lemma_fundamental_div_mod_converse(
            k as int + 1,
            locations,
            user,
            location + 1,
        );
        assert(k + 1 < users * locations) by (nonlinear_arith)
            requires
                k == locations * user + location,
                location + 1 < locations,
                0 <= user < users,
        ;
    } else {
        assert(k + 1 == (user + 1) * locations) by (nonlinear_arith)
            requires
                k == locations * user + location,
                location + 1 == locations,
        ;
        vstd::arithmetic::div_mod::lemma_fundamental_div_mod_converse(
            k as int + 1,
            locations,
            user + 1,
            0,
        );
        assert(user + 1 < users <==> k + 1 < users * locations) by (nonlinear_arith)
            requires
                k + 1 == (user + 1) * locations,
                locations > 0,
                0 <= user < users,
        ;
    }
}

/// A tick in which nothing failed sets the count of failed ticks to zero and
/// is followed by a sleep of exactly the interval.
pub proof fn lemma_clean_tick_sleeps_for_the_interval(v: LoopView)
    requires
        !v.failed,
        !v.stopping,
    ensures
        v.finished().phase == Phase::Sleeping,
        v.finished().errors == 0,
        backoff(v.config.check_interval as nat, v.finished().errors, v.finished().failed)
            == v.config.check_interval,
{
}

/// A tick in which something failed, and which does not end the loop, adds
/// one to the count and is followed by a sleep of the interval times the new
/// count.
pub proof fn lemma_failed_tick_backs_off(v: LoopView)
    requires
        !v.stopping,
        v.errors < v.config.consecutive_errors_limit,
    ensures
        v.with_failure().finished().phase == Phase::Sleeping,
        v.with_failure().finished().errors == v.errors + 1,
        backoff(
            v.config.check_interval as nat,
            v.with_failure().finished().errors,
            v.with_failure().finished().failed,
        ) == v.config.check_interval * (v.errors + 1),
{
}

/// What holds of a state `w` that a tick has reached from its start `v`,
/// where nothing asks the loop to end and the configuration stays as it is:
/// the configuration is that of `v`, and the count is that of `v` until the
/// tick has ended.
spec fn kept(w: LoopView, v: LoopView) -> bool {
    &&& w.config == v.config
    &&& w.pending is None
    &&& !w.stopping
    &&& w.in_tick() ==> w.errors == v.errors
    &&& !w.in_tick() ==> ended(w, v)
}

/// How a tick ends that began with the state `v`: without a failure the loop
/// sleeps with a count of zero; with one it sleeps with one more on the
/// count, or stops with code 1 where the count had reached the limit.
spec fn ended(w: LoopView, v: LoopView) -> bool {
    if !w.failed {
        w.phase == Phase::Sleeping && w.errors == 0
    } else if v.errors < v.config.consecutive_errors_limit {
        w.phase == Phase::Sleeping && w.errors == v.errors + 1
    } else {
        w.phase == (Phase::Stopped { code: 1 }) && w.errors == v.errors
    }
}

proof fn lemma_step_in_a_tick(w: LoopView, v: LoopView, event: Event)
    requires
        w.in_tick(),
        kept(w, v),
        keeps_going(event, v.config.last_changed),
    ensures
        kept(w.stepped(event), v),
{
}

proof fn lemma_prefix_of_a_tick(v: LoopView, events: Seq<Event>, n: int)
    requires
        v.runs_a_tick(events),
        v.pending is None,
        !v.stopping,
        leaves_alone(events, v.config.last_changed),
        1 <= n <= events.len(),
    ensures
        kept(v.ran(events.take(n)), v),
    decreases n,
{
    let prefix = events.take(n);
    assert(prefix.drop_last() =~= events.take(n - 1));
    assert(prefix.last() == events[n - 1]);
    if n == 1 {
        assert(events.take(0).len() == 0);
        assert(v.ran(events.take(0)) == v);
        assert(v.ran(prefix) == v.stepped(events[0]));
    } else {
        lemma_prefix_of_a_tick(v, events, n - 1);
        let before = v.ran(events.take(n - 1));
        assert(before.in_tick());
        lemma_step_in_a_tick(before, v, events[n - 1]);
    }
}

/// What one whole tick comes to, where nothing asks the loop to end and the
/// configuration stays as it is: without a failure the loop sleeps with a
/// count of zero; with a failure it sleeps with one more on the count, or,
/// where the count had reached the limit, stops with code 1.
pub proof fn lemma_a_tick_ends_by_the_count(v: LoopView, events: Seq<Event>)
    requires
        v.runs_a_tick(events),
        v.pending is None,
        !v.stopping,
        leaves_alone(events, v.config.last_changed),
    ensures
        v.ran(events).config == v.config,
        v.ran(events).pending is None,
        !v.ran(events).stopping,
        !v.ran(events).failed ==> v.ran(events).phase == Phase::Sleeping && v.ran(events).errors
            == 0,
        v.ran(events).failed && v.errors < v.config.consecutive_errors_limit ==> v.ran(
            events,
        ).phase == Phase::Sleeping && v.ran(events).errors == v.errors + 1,
        v.ran(events).failed && v.errors >= v.config.consecutive_errors_limit ==> v.ran(
            events,
        ).phase == (Phase::Stopped { code: 1 }),
{
    lemma_prefix_of_a_tick(v, events, events.len() as int);
    assert(events.take(events.len() as int) =~= events);
}

/// Ticks that fail in a row end the loop exactly when their count passes the
/// limit. From a sleeping loop with a count of zero, after `n` whole ticks
/// that each noted a failure, with `n` up to the limit, the loop sleeps with
/// a count of `n`; the tick after the limit is reached stops it with code 1.
pub proof fn lemma_sustained_failure_ends_the_loop(v: LoopView, ticks: Seq<Seq<Event>>)
    requires
        v.phase == Phase::Sleeping,
        v.errors == 0,
        v.pending is None,
        !v.stopping,
        v.runs_failing_ticks(ticks),
    ensures
        v.ran_ticks(ticks).config == v.config,
        v.ran_ticks(ticks).pending is None,
        !v.ran_ticks(ticks).stopping,
        ticks.len() <= v.config.consecutive_errors_limit + 1,
        ticks.len() <= v.config.consecutive_errors_limit ==> v.ran_ticks(ticks).phase
            == Phase::Sleeping && v.ran_ticks(ticks).errors == ticks.len(),
        ticks.len() == v.config.consecutive_errors_limit + 1 ==> v.ran_ticks(ticks).phase == (
        Phase::Stopped { code: 1 }),
    decreases ticks.len(),
{
    if ticks.len() > 0 {
        let earlier = ticks.drop_last();
        assert(earlier =~= ticks.take(ticks.len() - 1));
        assert forall|k: int| 0 <= k < earlier.len() implies {
            &&& (#[trigger] v.ran_ticks(earlier.take(k))).runs_a_tick(earlier[k])
            &&& leaves_alone(earlier[k], v.config.last_changed)
            &&& v.ran_ticks(earlier.take(k)).ran(earlier[k]).failed
        } by {
            assert(earlier.take(k) =~= ticks.take(k));
            assert(v.ran_ticks(ticks.take(k)).runs_a_tick(ticks[k]));
        }
        lemma_sustained_failure_ends_the_loop(v, earlier);
        let before = v.ran_ticks(earlier);
        assert(v.ran_ticks(ticks.take(ticks.len() - 1)).runs_a_tick(ticks[ticks.len() - 1]));
        lemma_a_tick_ends_by_the_count(before, ticks.last());
    }
}

/// The polling loop: the configuration, the caches of the subscribers, the
/// count of failed ticks, and what the loop is waiting for.
#[derive(Debug)]
pub struct PollLoop {
    config: Config,
    pending: Option<Config>,
    caches: Subscriptions,
    consecutive_errors: usize,
    tick_failed: bool,
    stopping: bool,
    phase: Phase,
}

impl View for PollLoop {
    type V = LoopView;

    closed spec fn view(&self) -> LoopView {
        LoopView {
            config: self.config,
            pending: self.pending,
            caches: self.caches@,
            errors: self.consecutive_errors as nat,
            failed: self.tick_failed,
            stopping: self.stopping,
            phase: self.phase,
        }
    }
}

impl PollLoop {
    #[verifier::type_invariant]
    spec fn queries_in_range(&self) -> bool {
        match self.phase {
            Phase::Fetching { user, location } | Phase::Sending { user, location } => {
                user < self.config.users.len() && location < self.config.locations.len()
            },
            _ => true,
        }
    }

    /// A loop with this configuration, no caches and no failed tick, between
    /// two ticks.
    pub fn new(config: Config) -> (lp: PollLoop)
        ensures
            lp@ == (LoopView {
                config,
                pending: None,
                caches: Map::empty(),
                errors: 0,
                failed: false,
                stopping: false,
                phase: Phase::Sleeping,
            }),
    {
        PollLoop {
            config,
            pending: None,
            caches: Subscriptions::new(),
            consecutive_errors: 0,
            tick_failed: false,
            stopping: false,
            phase: Phase::Sleeping,
        }
    }

    /// What the loop is waiting for.
    pub fn phase(&self) -> (phase: Phase)
        ensures
            phase == self@.phase,
    {
        self.phase
    }

    /// How many ticks in a row have failed.
    pub fn consecutive_errors(&self) -> (errors: usize)
        ensures
            errors == self@.errors,
    {
        self.consecutive_errors
    }

    /// Whether something has failed in the running tick.
    pub fn tick_failed(&self) -> (failed: bool)
        ensures
            failed == self@.failed,
    {
        self.tick_failed
    }

    /// The configuration that the running tick works with.
    pub fn config(&self) -> (config: &Config)
        ensures
            *config == self@.config,
    {
        &self.config
    }

    /// The caches of the subscribers.
    pub fn caches(&self) -> (caches: &Subscriptions)
        ensures
            caches@ == self@.caches,
    {
        &self.caches
    }

    fn first_query(&self) -> (pair: Option<(usize, usize)>)
        ensures
            pair == first_pair(self@.config),
    {
        if self.config.users.len() > 0 && self.config.locations.len() > 0 {
            Some((0, 0))
        } else {
            None
        }
    }

    fn query_after(&self, user: usize, location: usize) -> (pair: Option<(usize, usize)>)
        requires
            user < self@.config.users.len(),
            location < self@.config.locations.len(),
        ensures
            pair == pair_after(self@.config, user, location),
    {
        if location + 1 < self.config.locations.len() {
            Some((user, location + 1))
        } else if user + 1 < self.config.users.len() {
            Some((user + 1, 0))
        } else {
            None
        }
    }

    /// Ends the tick: gives up, ends the loop as asked, or sleeps.
    fn finish(&mut self) -> (action: Action)
        requires
            !(old(self)@.phase is Stopped),
        ensures
            final(self)@ == old(self)@.finished(),
            final(self)@.announces(action),
    {
        proof {
            use_type_invariant(&*self);
        }
        if self.tick_failed && self.consecutive_errors >= self.config.consecutive_errors_limit {
            self.phase = Phase::Stopped { code: 1 };
            return Action::Exit { code: 1 };
        }
        if self.tick_failed {
            self.consecutive_errors = self.consecutive_errors + 1;
        } else {
            self.consecutive_errors = 0;
        }
        if self.stopping {
            self.phase = Phase::Stopped { code: 0 };
            return Action::Exit { code: 0 };
        }
        self.phase = Phase::Sleeping;
        let interval = self.config.check_interval as u128;
        let times = if self.tick_failed {
            self.consecutive_errors as u128
        } else {
            1
        };
        assert(interval * times <= u128::MAX) by (nonlinear_arith)
            requires
                interval <= 0xffff_ffff_ffff_ffff,
                times <= 0xffff_ffff_ffff_ffff,
        ;
        Action::Sleep { millis: interval * times }
    }

    /// Goes on to the next query, or ends the tick where there is none.
    fn proceed(&mut self, pair: Option<(usize, usize)>) -> (action: Action)
        requires
            !(old(self)@.phase is Stopped),
            pair matches Some((user, location)) ==> user < old(self)@.config.users.len()
                && location < old(self)@.config.locations.len(),
        ensures
            final(self)@ == old(self)@.proceeded(pair),
            final(self)@.announces(action),
            !(final(self)@.phase is Loading),
    {
        proof {
            use_type_invariant(&*self);
        }
        match pair {
            Some((user, location)) => {
                self.phase = Phase::Fetching { user, location };
                let url = self.config.locations[location].query_url(
                    &self.config.users[user].phone_number,
                );
                Action::Fetch { url }
            },
            None => self.finish(),
        }
    }

    /// Takes an event and answers what to do next.
    pub fn step(&mut self, event: Event) -> (action: Action)
        ensures
            final(self)@ == old(self)@.stepped(event),
            old(self)@.asks(event, final(self)@, action),
    {
        proof {
            use_type_invariant(&*self);
        }
        match self.phase {
            Phase::Stopped { code } => Action::Exit { code },
            Phase::Sleeping => match event {
                Event::Wake { now } => {
                    let mut next: Option<Config> = None;
                    std::mem::swap(&mut next, &mut self.pending);
                    if let Some(config) = next {
                        self.config = config;
                    }
                    let mut caches = Subscriptions::new();
                    std::mem::swap(&mut caches, &mut self.caches);
                    caches.expire(now);
                    self.caches = caches;
                    self.tick_failed = false;
                    self.phase = Phase::Loading;
                    Action::LoadConfig
                },
                Event::Shutdown => {
                    self.phase = Phase::Stopped { code: 0 };
                    Action::Exit { code: 0 }
                },
                _ => Action::Wait,
            },
            Phase::Loading => match event {
                Event::ConfigLoaded(next) => {
                    if !(next == self.config) {
                        self.pending = Some(next);
                    }
                    let pair = self.first_query();
                    self.proceed(pair)
                },
                Event::ConfigFailed => {
                    self.tick_failed = true;
                    let pair = self.first_query();
                    self.proceed(pair)
                },
                Event::ConfigRejected(_) => {
                    self.tick_failed = true;
                    self.phase = Phase::Stopped { code: 1 };
                    Action::Exit { code: 1 }
                },
                Event::Shutdown => {
                    self.stopping = true;
                    Action::Wait
                },
                _ => Action::Wait,
            },
            Phase::Fetching { user, location } => match event {
                Event::Fetched(response) => {
                    let mut caches = Subscriptions::new();
                    std::mem::swap(&mut caches, &mut self.caches);
                    let news = caches.observe(&self.config.users[user].phone_number, response);
                    self.caches = caches;
                    match news {
                        Some(news) => {
                            match self.config.users[user].as_dest() {
                                Ok(dest) => {
                                    self.phase = Phase::Sending { user, location };
                                    Action::Send {
                                        message: news.status.message().to_owned(),
                                        from_addr: self.config.from_addr.clone(),
                                        dest,
                                    }
                                },
                                Err(_) => {
                                    self.tick_failed = true;
                                    let pair = self.query_after(user, location);
                                    self.proceed(pair)
                                },
                            }
                        },
                        None => {
                            let pair = self.query_after(user, location);
                            self.proceed(pair)
                        },
                    }
                },
                Event::FetchFailed => {
                    self.tick_failed = true;
                    let pair = self.query_after(user, location);
                    self.proceed(pair)
                },
                Event::Shutdown => {
                    self.stopping = true;
                    Action::Wait
                },
                _ => Action::Wait,
            },
            Phase::Sending { user, location } => match event {
                Event::Sent => {
                    let pair = self.query_after(user, location);
                    self.proceed(pair)
                },
                Event::SendFailed => {
                    self.tick_failed = true;
                    let pair = self.query_after(user, location);
                    self.proceed(pair)
                },
                Event::Shutdown => {
                    self.stopping = true;
                    Action::Wait
                },
                _ => Action::Wait,
            },
        }
    }
}

} // verus!
