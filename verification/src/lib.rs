//! Inspection pipeline for compiler artifacts: view gating, symbol
//! normalization, artifact extraction and output truncation.

pub mod artifacts;
pub mod blocks;
pub mod client;
pub mod context;
pub mod encoding;
pub mod env;
pub mod errors;
pub mod extract;
pub mod handler;
pub mod inspection;
pub mod json;
pub mod lines;
pub mod normalized;
pub mod orchestrator;
pub mod parameters;
pub mod protocol;
pub mod runner;
pub mod symbol;
pub mod text;
pub mod truncate;
