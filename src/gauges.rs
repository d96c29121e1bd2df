use vstd::prelude::*;

use crate::game_state::GameState;

verus! {

/// The four gauges the bridge publishes, one per field of a `GameState`.
#[derive(Clone, Copy, Debug, PartialEq, Eq, Structural)]
pub enum GaugeKind {
    ConnectedPlayers,
    TechTier,
    TotalGameDuration,
    AverageTickRate,
}

/// The value a gauge is set to. Integer fields are published as the nearest
/// floating-point number; the tick rate is published from its bit pattern.
#[derive(Clone, Copy, Debug, PartialEq, Eq, Structural)]
pub enum Reading {
    Count(u64),
    FloatBits(u64),
}

/// The fixed metric name of a gauge.
pub open spec fn gauge_name(k: GaugeKind) -> Seq<char> {
    match k {
        GaugeKind::ConnectedPlayers => "num_connected_players"@,
        GaugeKind::TechTier => "tech_tier"@,
        GaugeKind::TotalGameDuration => "total_game_duration"@,
        GaugeKind::AverageTickRate => "average_tick_rate"@,
    }
}

/// The fixed description of a gauge.
pub open spec fn gauge_help(k: GaugeKind) -> Seq<char> {
    match k {
        GaugeKind::ConnectedPlayers => "Number of connected players"@,
        GaugeKind::TechTier => "Current tech tier"@,
        GaugeKind::TotalGameDuration => "Total game duration"@,
        GaugeKind::AverageTickRate => "Average tick rate"@,
    }
}

/// The field of `state` that a gauge carries.
pub open spec fn reading_of(k: GaugeKind, state: GameState) -> Reading {
    match k {
        GaugeKind::ConnectedPlayers => Reading::Count(state.num_connected_players),
        GaugeKind::TechTier => Reading::Count(state.tech_tier),
        GaugeKind::TotalGameDuration => Reading::Count(state.total_game_duration),
        GaugeKind::AverageTickRate => Reading::FloatBits(state.average_tick_rate_bits),
    }
}

/// The gauges in the order they are created and registered.
pub open spec fn all_gauges() -> Seq<GaugeKind> {
    seq![
        GaugeKind::ConnectedPlayers,
        GaugeKind::TechTier,
        GaugeKind::TotalGameDuration,
        GaugeKind::AverageTickRate,
    ]
}

/// A character that may open a metric name: `[a-zA-Z_:]`.
pub open spec fn is_name_start(c: char) -> bool {
    ('a' <= c && c <= 'z') || ('A' <= c && c <= 'Z') || c == '_' || c == ':'
}

/// A character that may follow in a metric name: `[a-zA-Z0-9_:]`.
pub open spec fn is_name_char(c: char) -> bool {
    is_name_start(c) || ('0' <= c && c <= '9')
}

/// A metric name the exposition format accepts: `[a-zA-Z_:][a-zA-Z0-9_:]*`.
pub open spec fn is_valid_metric_name(s: Seq<char>) -> bool {
    &&& s.len() > 0
    &&& is_name_start(s[0])
    &&& forall|i: int| 0 <= i < s.len() ==> #[trigger] is_name_char(s[i])
}

impl GaugeKind {
    /// Every gauge, in the order they are created and registered.
    pub fn all() -> (r: Vec<GaugeKind>)
        ensures
            r@ == all_gauges(),
    {
        let r = vec![
            GaugeKind::ConnectedPlayers,
            GaugeKind::TechTier,
            GaugeKind::TotalGameDuration,
            GaugeKind::AverageTickRate,
        ];
        assert(r@ =~= all_gauges());
        r
    }

    /// The gauge's metric name.
    pub fn name(&self) -> (r: &'static str)
        ensures
            r@ == gauge_name(*self),
    {
        match self {
            GaugeKind::ConnectedPlayers => "num_connected_players",
            GaugeKind::TechTier => "tech_tier",
            GaugeKind::TotalGameDuration => "total_game_duration",
            GaugeKind::AverageTickRate => "average_tick_rate",
        }
    }

    /// The gauge's description.
    pub fn help(&self) -> (r: &'static str)
        ensures
            r@ == gauge_help(*self),
    {
        match self {
            GaugeKind::ConnectedPlayers => "Number of connected players",
            GaugeKind::TechTier => "Current tech tier",
            GaugeKind::TotalGameDuration => "Total game duration",
            GaugeKind::AverageTickRate => "Average tick rate",
        }
    }

    /// The value this gauge takes from `state`.
    pub fn reading(&self, state: &GameState) -> (r: Reading)
        ensures
            r == reading_of(*self, *state),
    {
        match self {
            GaugeKind::ConnectedPlayers => Reading::Count(state.num_connected_players),
            GaugeKind::TechTier => Reading::Count(state.tech_tier),
            GaugeKind::TotalGameDuration => Reading::Count(state.total_game_duration),
            GaugeKind::AverageTickRate => Reading::FloatBits(state.average_tick_rate_bits),
        }
    }
}

/// The gauge set can always be registered: every name is a valid metric
/// name, every description is non-empty, no two gauges share a name, and
/// the list of gauges holds each kind exactly once.
pub proof fn gauge_set_is_registrable()
    ensures
        forall|k: GaugeKind| is_valid_metric_name(#[trigger] gauge_name(k)),
        forall|k: GaugeKind| (#[trigger] gauge_help(k)).len() > 0,
        forall|k1: GaugeKind, k2: GaugeKind|
            #[trigger] gauge_name(k1) == #[trigger] gauge_name(k2) ==> k1 == k2,
        all_gauges().len() == 4,
        forall|k: GaugeKind| #[trigger] all_gauges().contains(k),
        forall|i: int, j: int|
            0 <= i < j < 4 ==> #[trigger] all_gauges()[i] != #[trigger] all_gauges()[j],
{
    reveal_strlit("num_connected_players");
    reveal_strlit("tech_tier");
    reveal_strlit("total_game_duration");
    reveal_strlit("average_tick_rate");
    reveal_strlit("Number of connected players");
    reveal_strlit("Current tech tier");
    reveal_strlit("Total game duration");
    reveal_strlit("Average tick rate");
    assert forall|k: GaugeKind| is_valid_metric_name(#[trigger] gauge_name(k)) by {
        let s = gauge_name(k);
        assert forall|i: int| 0 <= i < s.len() implies #[trigger] is_name_char(s[i]) by {
            match k {
                GaugeKind::ConnectedPlayers => {},
                GaugeKind::TechTier => {},
                GaugeKind::TotalGameDuration => {},
                GaugeKind::AverageTickRate => {},
            }
        }
    }
    assert forall|k: GaugeKind| #[trigger] all_gauges().contains(k) by {
        match k {
            GaugeKind::ConnectedPlayers => assert(all_gauges()[0] == k),
            GaugeKind::TechTier => assert(all_gauges()[1] == k),
            GaugeKind::TotalGameDuration => assert(all_gauges()[2] == k),
            GaugeKind::AverageTickRate => assert(all_gauges()[3] == k),
        }
    }
}

} // verus!
