use vstd::prelude::*;

verus! {

/// One reading of the remote server's state, decoded from a single
/// successful poll.
///
/// The average tick rate is kept as the IEEE-754 binary64 bit pattern of the
/// value the server reported, so it passes through the library unchanged.
#[derive(Clone, Copy, Debug, PartialEq, Eq, Structural)]
pub struct GameState {
    pub num_connected_players: u64,
    pub tech_tier: u64,
    pub total_game_duration: u64,
    pub average_tick_rate_bits: u64,
}

/// Why a fetch produced no game state. The text describes the cause.
#[derive(Clone, Debug, PartialEq, Eq)]
pub enum FetchError {
    /// The request could not be completed: connect, timeout or TLS failure.
    Transport(String),
    /// A response arrived but did not match the expected schema.
    Decode(String),
}

impl FetchError {
    /// The description of the cause, prefixed by the kind of failure.
    pub fn describe(&self) -> (r: String)
        ensures
            r@ == fetch_error_text(*self),
    {
        match self {
            FetchError::Transport(detail) => {
                let mut r = String::from_str("failed to fetch server state: ");
                r.append(detail.as_str());
                r
            },
            FetchError::Decode(detail) => {
                let mut r = String::from_str("failed to decode server state: ");
                r.append(detail.as_str());
                r
            },
        }
    }
}

/// The text `FetchError::describe` gives for an error.
pub open spec fn fetch_error_text(e: FetchError) -> Seq<char> {
    match e {
        FetchError::Transport(detail) => "failed to fetch server state: "@ + detail@,
        FetchError::Decode(detail) => "failed to decode server state: "@ + detail@,
    }
}

} // verus!
