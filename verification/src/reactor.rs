//! The polling reactor: it asks for the status at a fixed interval, compares
//! each status with the one before, and stops when the handler says so.

use crate::connector::{status_request, ConnectorView, HttpRequest, Reply};
use crate::status::{SpotifyStatus, SpotifyStatusChange, StatusView};
use crate::{get_status, status_in, status_reads_as, Spotify};
use vstd::prelude::*;

verus! {

/// The time between two polls, in milliseconds.
pub const POLL_INTERVAL_MS: u64 = 250;

/// Where a reactor stands.
#[derive(Debug, Clone, Copy, PartialEq, Eq, Structural)]
pub enum ReactorState {
    /// Constructed, not started.
    Idle,
    /// The loop is active.
    Running,
    /// The loop has exited. A stopped reactor stays stopped.
    Stopped,
}

/// The polling reactor.
#[derive(Debug)]
pub struct Reactor {
    spotify: Spotify,
    state: ReactorState,
    last: Option<SpotifyStatus>,
    interval_ms: u64,
}

/// A reactor as plain values.
pub struct ReactorView {
    pub session: ConnectorView,
    pub state: ReactorState,
    /// The last status that was fetched successfully.
    pub last: Option<StatusView>,
    /// The time between two polls, in milliseconds.
    pub interval_ms: u64,
}

/// The view of an optional status.
pub open spec fn status_view(status: Option<SpotifyStatus>) -> Option<StatusView> {
    match status {
        Some(status) => Some(status@),
        None => None,
    }
}

/// The view of what is handed to the handler.
pub open spec fn notification_view(notification: Option<(SpotifyStatus, SpotifyStatusChange)>) -> Option<
    (StatusView, SpotifyStatusChange),
> {
    match notification {
        Some((status, change)) => Some((status@, change)),
        None => None,
    }
}

impl View for Reactor {
    type V = ReactorView;

    closed spec fn view(&self) -> ReactorView {
        ReactorView {
            session: self.spotify@,
            state: self.state,
            last: status_view(self.last),
            interval_ms: self.interval_ms,
        }
    }
}

/// What the handler is called with when a running reactor has fetched
/// `curr`: nothing for a failed fetch; the status with every flag set for
/// the first status; the status with its changes against the last one
/// otherwise. A reactor that does not run calls no handler.
pub open spec fn notification(reactor: ReactorView, curr: Option<StatusView>) -> Option<
    (StatusView, SpotifyStatusChange),
> {
    if reactor.state != ReactorState::Running {
        None
    } else {
        match (curr, reactor.last) {
            (Some(curr), None) => Some((curr, SpotifyStatusChange::all(true))),
            (Some(curr), Some(last)) => Some((curr, SpotifyStatusChange::between(curr, last))),
            (None, _) => None,
        }
    }
}

/// The reactor after a fetch: a status that a running reactor has fetched
/// becomes its last status; a failed fetch changes nothing.
pub open spec fn after_fetch(reactor: ReactorView, curr: Option<StatusView>) -> ReactorView {
    if reactor.state == ReactorState::Running && curr is Some {
        ReactorView { last: curr, ..reactor }
    } else {
        reactor
    }
}

/// The reactor after its handler has answered: a running reactor stops when
/// the answer is `false`.
pub open spec fn after_handler(reactor: ReactorView, keep_going: bool) -> ReactorView {
    if reactor.state == ReactorState::Running && !keep_going {
        ReactorView { state: ReactorState::Stopped, ..reactor }
    } else {
        reactor
    }
}

/// Whether `curr` is the outcome of the poll that `reply` came back for:
/// the status that the reply holds, read as `get_status` reads it, or `None`
/// where the reply holds no status.
pub open spec fn polled(reply: Reply, curr: Option<StatusView>) -> bool {
    match curr {
        Some(status) => status_reads_as(Ok(status), reply),
        None => status_in(reply) is Err,
    }
}

impl Reactor {
    /// A reactor for `spotify` that has not started and has seen no status.
    /// It polls at the default interval.
    pub fn new(spotify: Spotify) -> (r: Reactor)
        ensures
            r@ == (ReactorView {
                session: spotify@,
                state: ReactorState::Idle,
                last: None,
                interval_ms: POLL_INTERVAL_MS,
            }),
    {
        Reactor { spotify, state: ReactorState::Idle, last: None, interval_ms: POLL_INTERVAL_MS }
    }

    /// Sets the time between two polls, in milliseconds.
    pub fn set_interval_ms(&mut self, interval_ms: u64)
        ensures
            final(self)@ == (ReactorView { interval_ms, ..old(self)@ }),
    {
        self.interval_ms = interval_ms;
    }

    /// The time between two polls, in milliseconds.
    pub fn interval_ms(&self) -> (r: u64)
        ensures
            r == self@.interval_ms,
    {
        self.interval_ms
    }

    /// Starts a reactor that has not started yet.
    pub fn start(&mut self)
        ensures
            final(self)@ == if old(self)@.state == ReactorState::Idle {
                ReactorView { state: ReactorState::Running, ..old(self)@ }
            } else {
                old(self)@
            },
    {
        match self.state {
            ReactorState::Idle => {
                self.state = ReactorState::Running;
            },
            _ => {},
        }
    }

    /// Where the reactor stands.
    pub fn state(&self) -> (r: ReactorState)
        ensures
            r == self@.state,
    {
        self.state
    }

    /// The client that the reactor polls.
    pub fn spotify(&self) -> (r: &Spotify)
        ensures
            r@ == self@.session,
    {
        &self.spotify
    }

    /// The request of the next poll. Only a running reactor polls.
    pub fn fetch(&self) -> (r: Option<HttpRequest>)
        ensures
            match r {
                Some(request) => self@.state == ReactorState::Running && exists|timestamp: i64|
                    request@ == status_request(self@.session, timestamp),
                None => self@.state != ReactorState::Running,
            },
    {
        match self.state {
            ReactorState::Running => {
                let request = self.spotify.status();
                proof {
                    let timestamp = choose|timestamp: i64|
                        request@ == status_request(self.spotify@, timestamp);
                    assert(request@ == status_request(self@.session, timestamp));
                }
                Some(request)
            },
            _ => None,
        }
    }

    /// Takes in the outcome of a poll, `None` for a failed one, and gives
    /// what the handler is to be called with, if it is to be called.
    pub fn observe(&mut self, curr: Option<SpotifyStatus>) -> (r: Option<
        (SpotifyStatus, SpotifyStatusChange),
    >)
        ensures
            notification_view(r) == notification(old(self)@, status_view(curr)),
            final(self)@ == after_fetch(old(self)@, status_view(curr)),
    {
        match self.state {
            ReactorState::Running => {},
            _ => {
                return None;
            },
        }
        match curr {
            Some(curr) => {
                let change = match &self.last {
                    Some(last) => SpotifyStatusChange::diff(&curr, last),
                    None => SpotifyStatusChange::new_true(),
                };
                self.last = Some(curr.clone());
                Some((curr, change))
            },
            None => None,
        }
    }

    /// Takes in the reply to a poll and gives what the handler is to be
    /// called with, if it is to be called. A reply that holds no status is a
    /// failed poll.
    pub fn receive(&mut self, reply: Reply) -> (r: Option<(SpotifyStatus, SpotifyStatusChange)>)
        ensures
            exists|curr: Option<StatusView>|
                {
                    &&& #[trigger] polled(reply, curr)
                    &&& notification_view(r) == notification(old(self)@, curr)
                    &&& final(self)@ == after_fetch(old(self)@, curr)
                },
    {
        let curr = match get_status(reply) {
            Ok(status) => Some(status),
            Err(_) => None,
        };
        let ghost outcome = status_view(curr);
        assert(polled(reply, outcome));
        self.observe(curr)
    }

    /// Takes in the answer of the handler: `false` stops the reactor.
    pub fn handled(&mut self, keep_going: bool)
        ensures
            final(self)@ == after_handler(old(self)@, keep_going),
    {
        match self.state {
            ReactorState::Running => {
                if !keep_going {
                    self.state = ReactorState::Stopped;
                }
            },
            _ => {},
        }
    }
}

/// One turn of the polling loop: what the poll brought, `None` for a failed
/// one, and what the handler answers if it is called.
pub struct Cycle {
    pub outcome: Option<StatusView>,
    pub keep_going: bool,
}

/// The reactor after one cycle: the poll is taken in, and the handler's
/// answer where the handler was called.
pub open spec fn after_cycle(reactor: ReactorView, cycle: Cycle) -> ReactorView {
    let polled = after_fetch(reactor, cycle.outcome);
    if notification(reactor, cycle.outcome) is Some {
        after_handler(polled, cycle.keep_going)
    } else {
        polled
    }
}

/// The reactor after a run of cycles.
pub open spec fn after_cycles(reactor: ReactorView, cycles: Seq<Cycle>) -> ReactorView
    decreases cycles.len(),
{
    if cycles.len() == 0 {
        reactor
    } else {
        after_cycles(after_cycle(reactor, cycles[0]), cycles.drop_first())
    }
}

/// What the handler is called with over a run of cycles, call by call.
pub open spec fn notifications(reactor: ReactorView, cycles: Seq<Cycle>) -> Seq<
    (StatusView, SpotifyStatusChange),
>
    decreases cycles.len(),
{
    if cycles.len() == 0 {
        Seq::empty()
    } else {
        let later = notifications(after_cycle(reactor, cycles[0]), cycles.drop_first());
        match notification(reactor, cycles[0].outcome) {
            Some(first) => seq![first] + later,
            None => later,
        }
    }
}

/// A reactor that does not run calls no handler and stays as it is.
pub proof fn lemma_only_a_running_reactor_calls(reactor: ReactorView, cycles: Seq<Cycle>)
    requires
        reactor.state != ReactorState::Running,
    ensures
        notifications(reactor, cycles) == Seq::<(StatusView, SpotifyStatusChange)>::empty(),
        after_cycles(reactor, cycles) == reactor,
    decreases cycles.len(),
{
    if cycles.len() > 0 {
        lemma_only_a_running_reactor_calls(reactor, cycles.drop_first());
    }
}

/// The first call of the handler carries every flag set, whatever status it
/// brings and however many polls failed before it.
pub proof fn lemma_first_call_flags_everything(reactor: ReactorView, cycles: Seq<Cycle>)
    requires
        reactor.last is None,
    ensures
        notifications(reactor, cycles).len() > 0 ==> notifications(reactor, cycles)[0].1
            == SpotifyStatusChange::all(true),
    decreases cycles.len(),
{
    if cycles.len() > 0 {
        if notification(reactor, cycles[0].outcome) is None {
            lemma_first_call_flags_everything(after_cycle(reactor, cycles[0]), cycles.drop_first());
        }
    }
}

/// A failed poll calls no handler and leaves the reactor as it is, the last
/// status included.
pub proof fn lemma_failed_poll_changes_nothing(reactor: ReactorView, keep_going: bool)
    ensures
        notification(reactor, None) is None,
        after_cycle(reactor, Cycle { outcome: None, keep_going }) == reactor,
{
}

/// A failed poll anywhere in a run is not seen: the handler is called with
/// the same arguments as without it, and the reactor ends in the same state.
pub proof fn lemma_failed_poll_is_not_seen(
    reactor: ReactorView,
    cycles: Seq<Cycle>,
    at: int,
    keep_going: bool,
)
    requires
        0 <= at <= cycles.len(),
    ensures
        notifications(reactor, cycles.insert(at, Cycle { outcome: None, keep_going }))
            == notifications(reactor, cycles),
        after_cycles(reactor, cycles.insert(at, Cycle { outcome: None, keep_going })) == after_cycles(
            reactor,
            cycles,
        ),
    decreases at,
{
    let failed = Cycle { outcome: None, keep_going };
    let with_failure = cycles.insert(at, failed);
    if at == 0 {
        assert(with_failure.drop_first() == cycles);
    } else {
        assert(with_failure[0] == cycles[0]);
        assert(with_failure.drop_first() == cycles.drop_first().insert(at - 1, failed));
        lemma_failed_poll_is_not_seen(
            after_cycle(reactor, cycles[0]),
            cycles.drop_first(),
            at - 1,
            keep_going,
        );
    }
}

/// Two statuses with a failed poll between them: the handler is called
/// twice, and the second call compares the second status with the first.
pub proof fn lemma_failure_between_two_statuses(
    reactor: ReactorView,
    first: StatusView,
    second: StatusView,
    keep_going: bool,
)
    requires
        reactor.state == ReactorState::Running,
    ensures
        ({
            let cycles = seq![
                Cycle { outcome: Some(first), keep_going: true },
                Cycle { outcome: None, keep_going },
                Cycle { outcome: Some(second), keep_going: true },
            ];
            &&& notifications(reactor, cycles).len() == 2
            &&& notifications(reactor, cycles)[0].0 == first
            &&& notifications(reactor, cycles)[1] == (
                second,
                SpotifyStatusChange::between(second, first),
            )
            &&& after_cycles(reactor, cycles).last == Some(second)
        }),
{
    let one = Cycle { outcome: Some(first), keep_going: true };
    let two = Cycle { outcome: Some(second), keep_going: true };
    let without = seq![one, two];
    let cycles = seq![one, Cycle { outcome: None, keep_going }, two];
    assert(cycles == without.insert(1, Cycle { outcome: None, keep_going }));
    lemma_failed_poll_is_not_seen(reactor, without, 1, keep_going);
    let after_one = after_cycle(reactor, one);
    assert(without.drop_first() == seq![two]);
    assert(seq![two].drop_first() == Seq::<Cycle>::empty());
    reveal_with_fuel(notifications, 3);
    reveal_with_fuel(after_cycles, 3);
}

/// When every poll up to the `n`-th brings a status and the handler answers
/// `false` for the first time to the `n`-th, it is called `n + 1` times in
/// all, whatever follows, and the reactor has stopped.
pub proof fn lemma_refusal_ends_the_run(reactor: ReactorView, cycles: Seq<Cycle>, n: int)
    requires
        reactor.state == ReactorState::Running,
        0 <= n < cycles.len(),
        forall|j: int| 0 <= j <= n ==> (#[trigger] cycles[j]).outcome is Some,
        forall|j: int| 0 <= j < n ==> (#[trigger] cycles[j]).keep_going,
        !cycles[n].keep_going,
    ensures
        notifications(reactor, cycles).len() == n + 1,
        after_cycles(reactor, cycles).state == ReactorState::Stopped,
    decreases n,
{
    let next = after_cycle(reactor, cycles[0]);
    if n == 0 {
        lemma_only_a_running_reactor_calls(next, cycles.drop_first());
    } else {
        assert forall|j: int| 0 <= j <= n - 1 implies (#[trigger] cycles.drop_first()[j]).outcome
            is Some by {
            assert(cycles.drop_first()[j] == cycles[j + 1]);
        }
        assert forall|j: int| 0 <= j < n - 1 implies (#[trigger] cycles.drop_first()[j]).keep_going by {
            assert(cycles.drop_first()[j] == cycles[j + 1]);
        }
        assert(cycles.drop_first()[n - 1] == cycles[n]);
        lemma_refusal_ends_the_run(next, cycles.drop_first(), n - 1);
    }
}

} // verus!
