//! What the front end's commands decide: chat task events, the settings
//! summary, and the storage summary.
pub mod chat_agent;
pub mod settings;
pub mod storage;
