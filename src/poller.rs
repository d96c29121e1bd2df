use vstd::prelude::*;

use crate::config::Config;
use crate::game_state::{FetchError, GameState};
use crate::gauges::{reading_of, GaugeKind, Reading};
use crate::request::{is_request_for, QueryRequest};

verus! {

/// Where the poller stands between two events.
#[derive(Clone, Copy, Debug, PartialEq, Eq, Structural)]
pub enum Phase {
    /// No tick has fired yet.
    Idle,
    /// Waiting for the next tick, with no fetch in flight.
    Waiting,
    /// A fetch is in flight.
    Fetching,
}

/// What happens to the poller.
#[derive(Clone, Debug, PartialEq, Eq)]
pub enum PollEvent {
    /// The interval timer fired.
    Tick,
    /// The fetch in flight returned a game state.
    Fetched(GameState),
    /// The fetch in flight failed.
    Failed(FetchError),
}

/// What the poller asks its runner to do after an event, in this order:
/// set the gauges to `publish`, log `report`, then start a fetch if `fetch`.
#[derive(Clone, Debug, PartialEq, Eq)]
pub struct PollStep {
    pub publish: Option<GameState>,
    pub report: Option<FetchError>,
    pub fetch: bool,
}

/// The poller's state as the contracts see it.
pub struct PollerView {
    /// The request each poll sends.
    pub request: QueryRequest,
    pub phase: Phase,
    /// A tick fired while a fetch was in flight; it is served once that
    /// fetch ends. Further ticks in that time are folded into this one.
    pub tick_pending: bool,
    /// The game state last published to the gauges, if any.
    pub readings: Option<GameState>,
}

/// The scheduled fetch-and-update cycle, driven by timer ticks and fetch
/// outcomes. It owns the request each poll sends and remembers the last
/// state it published, which failed polls leave in place.
pub struct Poller {
    request: QueryRequest,
    phase: Phase,
    tick_pending: bool,
    readings: Option<GameState>,
}

impl View for Poller {
    type V = PollerView;

    closed spec fn view(&self) -> PollerView {
        PollerView {
            request: self.request,
            phase: self.phase, tick_pending: self.tick_pending, readings: self.readings }
    }
}

/// The step that does nothing.
pub open spec fn no_step() -> PollStep {
    PollStep { publish: None, report: None, fetch: false }
}

/// The state after a fetch ends: a pending tick starts the next fetch at
/// once, otherwise the poller waits for the timer.
pub open spec fn after_fetch(s: PollerView, readings: Option<GameState>) -> PollerView {
    PollerView {
        phase: if s.tick_pending { Phase::Fetching } else { Phase::Waiting },
        tick_pending: false,
        readings,
        ..s
    }
}

/// How the poller moves on an event, and what it asks for.
///
/// A tick starts a fetch unless one is in flight, in which case it is kept
/// as pending (at most one). A fetched state is published and becomes the
/// readings. A failure is reported and changes no readings. An outcome that
/// arrives with no fetch in flight is dropped.
pub open spec fn next(s: PollerView, e: PollEvent) -> (PollerView, PollStep) {
    match e {
        PollEvent::Tick => {
            if s.phase == Phase::Fetching {
                (PollerView { tick_pending: true, ..s }, no_step())
            } else {
                (
                    PollerView { phase: Phase::Fetching, tick_pending: false, ..s },
                    PollStep { fetch: true, ..no_step() },
                )
            }
        },
        PollEvent::Fetched(state) => {
            if s.phase == Phase::Fetching {
                (
                    after_fetch(s, Some(state)),
                    PollStep { publish: Some(state), report: None, fetch: s.tick_pending },
                )
            } else {
                (s, no_step())
            }
        },
        PollEvent::Failed(err) => {
            if s.phase == Phase::Fetching {
                (
                    after_fetch(s, s.readings),
                    PollStep { publish: None, report: Some(err), fetch: s.tick_pending },
                )
            } else {
                (s, no_step())
            }
        },
    }
}

impl Poller {
    /// A poller that has not polled yet, sending the request `config` calls for.
    pub fn new(config: &Config) -> (r: Poller)
        ensures
            is_request_for(r@.request, *config),
            r@.phase == Phase::Idle,
            !r@.tick_pending,
            r@.readings is None,
    {
        Poller {
            request: QueryRequest::for_config(config),
            phase: Phase::Idle,
            tick_pending: false,
            readings: None,
        }
    }

    /// The request each poll sends.
    pub fn request(&self) -> (r: &QueryRequest)
        ensures
            *r == self@.request,
    {
        &self.request
    }

    /// Where the poller stands.
    pub fn phase(&self) -> (r: Phase)
        ensures
            r == self@.phase,
    {
        self.phase
    }

    /// The game state last published, if any poll has succeeded.
    pub fn readings(&self) -> (r: Option<GameState>)
        ensures
            r == self@.readings,
    {
        self.readings
    }

    /// Moves the poller on `event` and says what its runner must do.
    pub fn step(&mut self, event: PollEvent) -> (r: PollStep)
        ensures
            (final(self)@, r) == next(old(self)@, event),
    {
        match event {
            PollEvent::Tick => {
                if self.phase == Phase::Fetching {
                    self.tick_pending = true;
                    PollStep { publish: None, report: None, fetch: false }
                } else {
                    self.phase = Phase::Fetching;
                    self.tick_pending = false;
                    PollStep { publish: None, report: None, fetch: true }
                }
            },
            PollEvent::Fetched(state) => {
                if self.phase == Phase::Fetching {
                    let fetch = self.finish_fetch();
                    self.readings = Some(state);
                    PollStep { publish: Some(state), report: None, fetch }
                } else {
                    PollStep { publish: None, report: None, fetch: false }
                }
            },
            PollEvent::Failed(err) => {
                if self.phase == Phase::Fetching {
                    let fetch = self.finish_fetch();
                    PollStep { publish: None, report: Some(err), fetch }
                } else {
                    PollStep { publish: None, report: None, fetch: false }
                }
            },
        }
    }

    /// Ends the fetch in flight: serves a pending tick at once, or waits.
    /// Returns whether a new fetch starts.
    fn finish_fetch(&mut self) -> (r: bool)
        ensures
            r == old(self)@.tick_pending,
            final(self)@ == after_fetch(old(self)@, old(self)@.readings),
    {
        let r = self.tick_pending;
        self.phase = if r { Phase::Fetching } else { Phase::Waiting };
        self.tick_pending = false;
        r
    }
}

/// A failed fetch, whether the transport failed or the response could not
/// be decoded, publishes nothing and leaves the readings exactly as they
/// were before the fetch: no field of a partial response is written.
pub proof fn failed_fetch_keeps_readings(s: PollerView, err: FetchError)
    ensures
        next(s, PollEvent::Failed(err)).0.readings == s.readings,
        next(s, PollEvent::Failed(err)).1.publish is None,
{
}

/// A fetch that returns a game state publishes it whole: the state becomes
/// the readings, and every gauge is set from the field it carries.
pub proof fn fetched_state_is_published(s: PollerView, state: GameState)
    requires
        s.phase == Phase::Fetching,
    ensures
        next(s, PollEvent::Fetched(state)).1.publish == Some(state),
        next(s, PollEvent::Fetched(state)).0.readings == Some(state),
        reading_of(GaugeKind::ConnectedPlayers, state) == Reading::Count(state.num_connected_players),
        reading_of(GaugeKind::TechTier, state) == Reading::Count(state.tech_tier),
        reading_of(GaugeKind::TotalGameDuration, state) == Reading::Count(state.total_game_duration),
        reading_of(GaugeKind::AverageTickRate, state) == Reading::FloatBits(state.average_tick_rate_bits),
{
}

/// Ticks never pile up. A tick starts a fetch only when none is in flight,
/// a step that asks for a fetch leaves one in flight, and a tick is kept
/// pending only while a fetch is in flight, so at most one waits for it.
pub proof fn at_most_one_fetch_in_flight(s: PollerView, e: PollEvent)
    requires
        s.tick_pending ==> s.phase == Phase::Fetching,
    ensures
        next(s, e).1.fetch ==> next(s, e).0.phase == Phase::Fetching,
        e is Tick && next(s, e).1.fetch ==> s.phase != Phase::Fetching,
        next(s, e).0.tick_pending ==> next(s, e).0.phase == Phase::Fetching,
{
}

} // verus!
