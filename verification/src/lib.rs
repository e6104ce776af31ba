//! Verified core of a Model Context Protocol server that drives qBittorrent instances.
#![allow(unused_imports)]

pub mod text;
pub mod json;
pub mod cli;
pub mod config;
pub mod client;
pub mod models;
pub mod server;
pub mod app;
