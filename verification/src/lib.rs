//! Core logic of a Telegram chat bot that answers through an LLM: configuration
//! checks, per-user preference and history books, reply clean-up and the
//! decision machines that drive the text and command handlers.

pub mod bot;
pub mod config;
pub mod error;
pub mod services;
pub mod text;
pub mod decimal;
pub mod db;
