//! Decision logic of a community chat bot: a content-addressed media cache
//! with a download guard, per-guild voice sessions, auto-disconnect timers,
//! playback replies, and a few small command helpers.

pub mod cache;
pub mod clock;
pub mod commands;
pub mod disconnect;
pub mod download;
pub mod hashing;
pub mod leaderboard;
pub mod members;
pub mod playback;
pub mod queue_text;
pub mod roll;
pub mod session;
pub mod text;
pub mod tracks;
