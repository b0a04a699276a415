//! Core of a notification relay: it classifies upstream messages by
//! priority, renders them through tiered templates, walks the upstream
//! message history from a persisted cursor, and drives delivery through
//! an explicit supervisor state machine.

pub mod backlog;
pub mod config;
pub mod models;
pub mod engine;
pub mod errors;
pub mod render;
pub mod session;
