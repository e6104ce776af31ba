//! The Model Context Protocol side of the server.
pub mod mcp;
pub mod maintenance;
pub mod calls;
pub mod resources;
pub mod prompts;
pub mod tools;
pub mod polling;
pub mod listing;
pub mod handler;
pub mod session;
