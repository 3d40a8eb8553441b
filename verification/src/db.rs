//! Per-user storage: the keys that name a user in a chat, the preference book and the
//! bounded history book.

pub mod history;
pub mod table;
pub mod key;
pub mod user_prefs;
