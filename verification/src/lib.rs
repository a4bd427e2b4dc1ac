//! Verified configuration and MCP gateway logic of the WebCodex runner.
use vstd::prelude::*;

pub mod bridge;
pub mod cli;
pub mod config;
pub mod connection;
pub mod diagnostics;
pub mod entry;
pub mod env_keys;
pub mod exchange;
pub mod faults;
pub mod fields;
pub mod gateway;
pub mod jobs;
pub mod json;
pub mod load;
pub mod lsp;
pub mod members;
pub mod paths;
pub mod providers;
pub mod reload;
pub mod reload_report;
pub mod rpc;
pub mod scripted;
pub mod table;
pub mod text;
pub mod toml_shape;
pub mod tools;
pub mod transport;
pub mod validate;

verus! {

} // verus!
