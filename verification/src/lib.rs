//! Verified core of an automatic activity tracker: title and URL parsers,
//! snapshot signatures, segment tracking, work-hour rules and export formatting.

pub mod text;
pub mod parser;
pub mod models;
pub mod segment;
pub mod export;
pub mod commands;
pub mod monitor;
pub mod paths;
pub mod state;
pub mod update;
pub mod tracker;
pub mod laws;
