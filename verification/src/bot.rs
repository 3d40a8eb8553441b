//! The decisions of the message handlers. Each handler is a machine that takes the event
//! that the last outside action produced and gives the next action to perform.

pub mod chat;
pub mod commands;
