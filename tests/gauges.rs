use state_exporter::game_state::GameState;
use state_exporter::gauges::{GaugeKind, Reading};

#[test]
fn gauge_names_and_descriptions() {
    let names: Vec<&str> = GaugeKind::all().iter().map(|k| k.name()).collect();
    assert_eq!(
        names,
        vec!["num_connected_players", "tech_tier", "total_game_duration", "average_tick_rate"]
    );
    let helps: Vec<&str> = GaugeKind::all().iter().map(|k| k.help()).collect();
    assert_eq!(
        helps,
        vec!["Number of connected players", "Current tech tier", "Total game duration", "Average tick rate"]
    );
}

#[test]
fn each_gauge_reads_its_own_field() {
    let s = GameState {
        num_connected_players: 12,
        tech_tier: 3,
        total_game_duration: 7200,
        average_tick_rate_bits: 59.8f64.to_bits(),
    };
    assert_eq!(GaugeKind::ConnectedPlayers.reading(&s), Reading::Count(12));
    assert_eq!(GaugeKind::TechTier.reading(&s), Reading::Count(3));
    assert_eq!(GaugeKind::TotalGameDuration.reading(&s), Reading::Count(7200));
    assert_eq!(GaugeKind::AverageTickRate.reading(&s), Reading::FloatBits(59.8f64.to_bits()));
}
