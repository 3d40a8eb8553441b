//! The LLM service: chat messages, reply clean-up and the system prompt files.

pub mod llm;
