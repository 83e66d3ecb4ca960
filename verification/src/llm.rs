//! Model adapters: request checking and request planning for the chat,
//! image and video models, and the local embedding model's description.
pub mod chat;
pub mod embd;
pub mod help;
pub mod image;
pub mod json;
pub mod video;
