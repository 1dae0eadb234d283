//! Verified core of a Windows GUI automation engine.
pub mod cli;
pub mod command;
pub mod engine;
pub mod guid;
pub mod input;
pub mod json;
pub mod listing;
pub mod mcp;
pub mod number;
pub mod plugin;
pub mod text;
pub mod uia;
