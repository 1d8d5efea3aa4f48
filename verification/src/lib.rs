//! A verified core for a game-automation client binding.
//!
//! The heart of the crate is the snapshot polling and deduplication
//! protocol in [`poller`]: detecting a genuinely new state snapshot from an
//! external interface that only offers "give me whatever the latest snapshot
//! is" semantics, under a rate limit (polling too fast destabilises the host
//! process) and a timeout (never hang forever on a frozen host).

pub mod color;
pub mod error;
pub mod framework;
pub mod game;
pub mod hive;
pub mod init;
pub mod inject;
pub mod limiter;
pub mod match_settings;
pub mod parse;
pub mod poller;
pub mod state_convert;
pub mod utils;
