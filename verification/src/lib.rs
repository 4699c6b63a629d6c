//! Playback-queue engine for a voice-channel music bot: the per-guild track
//! queue with its position pointer, the guild-keyed registry of queues, and
//! the decisions taken by the two background watchdogs.

pub mod commands;
pub mod config;
pub mod parser;
pub mod queue;
pub mod registry;
pub mod tracklist;
pub mod watchdog;
