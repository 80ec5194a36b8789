//! Agent Context panel logic for Codex++: configuration, status records,
//! command lines for the `agent-context` tool and the mapping of its output.

pub mod text;
pub mod system;
pub mod paths;
pub mod config;
pub mod commands;
pub mod error;
pub mod access;
pub mod status;
pub mod runtime;
pub mod preflight;
pub mod panel;
pub mod json;
pub mod bridge;
pub mod flows;
pub mod state;
pub mod telemetry;
pub mod laws;
