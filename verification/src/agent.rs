//! The agents: each takes its adapter's configuration from the cached
//! configuration in effect.
pub mod chat;
pub mod video;
