//! A bridge that polls a game server's status API and republishes what it
//! reports as gauges for a pull-based monitoring scraper.
//!
//! The modules hold the decisions of that bridge: how the outbound query is
//! built, which gauge carries which field, how the poller reacts to timer
//! ticks and fetch outcomes, and what a scrape answers.
pub mod config;
pub mod exposition;
pub mod game_state;
pub mod gauges;
pub mod poller;
pub mod request;
