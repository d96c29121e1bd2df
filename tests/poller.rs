use prometheus::{Gauge, Registry, TextEncoder};
use state_exporter::config::Config;
use state_exporter::game_state::{FetchError, GameState};
use state_exporter::gauges::{GaugeKind, Reading};
use state_exporter::poller::{Phase, PollEvent, Poller};

fn config(allow_insecure: bool) -> Config {
    Config::new(5, "game.example:7777".to_string(), None, allow_insecure, "127.0.0.1:3030".to_string())
        .unwrap()
}

fn sample() -> GameState {
    GameState {
        num_connected_players: 12,
        tech_tier: 3,
        total_game_duration: 7200,
        average_tick_rate_bits: 59.8f64.to_bits(),
    }
}

fn other() -> GameState {
    GameState {
        num_connected_players: 4,
        tech_tier: 1,
        total_game_duration: 60,
        average_tick_rate_bits: 30.0f64.to_bits(),
    }
}

/// The gauges as the exposition endpoint holds them.
struct Exposition {
    gauges: Vec<(GaugeKind, Gauge)>,
    registry: Registry,
}

impl Exposition {
    fn new() -> Exposition {
        let registry = Registry::new();
        let mut gauges = Vec::new();
        for kind in GaugeKind::all() {
            let gauge = Gauge::new(kind.name(), kind.help()).unwrap();
            registry.register(Box::new(gauge.clone())).unwrap();
            gauges.push((kind, gauge));
        }
        Exposition { gauges, registry }
    }

    fn update(&self, state: &GameState) {
        for (kind, gauge) in &self.gauges {
            match kind.reading(state) {
                Reading::Count(n) => gauge.set(n as f64),
                Reading::FloatBits(bits) => gauge.set(f64::from_bits(bits)),
            }
        }
    }

    fn serialize(&self) -> String {
        TextEncoder::new().encode_to_string(&self.registry.gather()).unwrap()
    }
}

#[test]
fn first_tick_starts_a_fetch() {
    let mut p = Poller::new(&config(false));
    assert_eq!(p.phase(), Phase::Idle);
    assert_eq!(p.readings(), None);
    let step = p.step(PollEvent::Tick);
    assert!(step.fetch);
    assert_eq!(step.publish, None);
    assert_eq!(p.phase(), Phase::Fetching);
}

#[test]
fn successful_poll_is_published() {
    let store = Exposition::new();
    let mut p = Poller::new(&config(false));
    p.step(PollEvent::Tick);
    let step = p.step(PollEvent::Fetched(sample()));
    assert_eq!(step.publish, Some(sample()));
    assert!(!step.fetch);
    assert_eq!(p.phase(), Phase::Waiting);
    store.update(&step.publish.unwrap());
    let text = store.serialize();
    for line in [
        "num_connected_players 12\n",
        "tech_tier 3\n",
        "total_game_duration 7200\n",
        "average_tick_rate 59.8\n",
        "# HELP tech_tier Current tech tier\n",
        "# TYPE tech_tier gauge\n",
    ] {
        assert!(text.contains(line), "{} not in {}", line, text);
    }
}

#[test]
fn serializing_twice_gives_identical_text() {
    let store = Exposition::new();
    store.update(&sample());
    assert_eq!(store.serialize(), store.serialize());
}

#[test]
fn transport_failure_keeps_last_readings() {
    let store = Exposition::new();
    let mut p = Poller::new(&config(false));
    p.step(PollEvent::Tick);
    store.update(&p.step(PollEvent::Fetched(sample())).publish.unwrap());
    let before = store.serialize();
    p.step(PollEvent::Tick);
    let step = p.step(PollEvent::Failed(FetchError::Transport("connection refused".to_string())));
    assert_eq!(step.publish, None);
    assert_eq!(step.report, Some(FetchError::Transport("connection refused".to_string())));
    assert_eq!(p.readings(), Some(sample()));
    assert_eq!(p.phase(), Phase::Waiting);
    assert_eq!(store.serialize(), before);
}

#[test]
fn decode_failure_keeps_last_readings() {
    let mut p = Poller::new(&config(false));
    p.step(PollEvent::Tick);
    p.step(PollEvent::Fetched(sample()));
    p.step(PollEvent::Tick);
    let err = FetchError::Decode("missing field `averageTickRate`".to_string());
    let step = p.step(PollEvent::Failed(err.clone()));
    assert_eq!(step.publish, None);
    assert_eq!(step.report, Some(err));
    assert_eq!(p.readings(), Some(sample()));
}

#[test]
fn self_signed_certificate_without_insecure_flag() {
    let store = Exposition::new();
    let mut p = Poller::new(&config(false));
    assert!(!p.request().accept_invalid_certs);
    p.step(PollEvent::Tick);
    let step = p.step(PollEvent::Failed(FetchError::Transport("invalid peer certificate".to_string())));
    assert_eq!(step.publish, None);
    assert_eq!(p.readings(), None);
    let text = store.serialize();
    assert!(text.contains("num_connected_players 0\n"));
    assert!(text.contains("average_tick_rate 0\n"));
}

#[test]
fn tick_during_fetch_is_served_once_after_it() {
    let mut p = Poller::new(&config(false));
    p.step(PollEvent::Tick);
    let late = p.step(PollEvent::Tick);
    assert!(!late.fetch);
    let later = p.step(PollEvent::Tick);
    assert!(!later.fetch);
    let step = p.step(PollEvent::Fetched(sample()));
    assert_eq!(step.publish, Some(sample()));
    assert!(step.fetch);
    assert_eq!(p.phase(), Phase::Fetching);
    let step = p.step(PollEvent::Fetched(other()));
    assert!(!step.fetch);
    assert_eq!(p.readings(), Some(other()));
    assert_eq!(p.phase(), Phase::Waiting);
}

#[test]
fn outcome_without_fetch_in_flight_is_dropped() {
    let mut p = Poller::new(&config(false));
    let step = p.step(PollEvent::Fetched(sample()));
    assert_eq!(step.publish, None);
    assert!(!step.fetch);
    assert_eq!(p.readings(), None);
    let step = p.step(PollEvent::Failed(FetchError::Transport("x".to_string())));
    assert_eq!(step.report, None);
    assert_eq!(p.phase(), Phase::Idle);
}

#[test]
fn newer_poll_replaces_older_readings() {
    let mut p = Poller::new(&config(false));
    p.step(PollEvent::Tick);
    p.step(PollEvent::Fetched(sample()));
    p.step(PollEvent::Tick);
    p.step(PollEvent::Fetched(other()));
    assert_eq!(p.readings(), Some(other()));
}
