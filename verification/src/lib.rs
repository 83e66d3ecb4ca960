//! The verified core of the assistant: configuration and model choice,
//! the model adapters' checks and request plans, the agents, the chat
//! task's events, and the storage layout.
pub mod agent;
pub mod app;
pub mod config;
pub mod llm;
pub mod store;
pub mod text;
