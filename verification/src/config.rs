//! Settings that a guild's administrators can change.

pub mod servers;

pub use servers::ChannelSet;
pub use servers::Reminder;
pub use servers::ServerConfig;
