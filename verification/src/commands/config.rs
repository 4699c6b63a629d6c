//! Commands that change a guild's settings.

pub mod prefix;
