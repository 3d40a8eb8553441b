use vstd::prelude::*;
use crate::text::concat_str;

verus! {

/// The errors of the bot. Errors that come from a library (Telegram, HTTP, JSON, the
/// configuration reader, the environment) carry that library's error text.
#[derive(Debug)]
pub enum AppError {
    Telegram(String),
    UserInfoNotFound,
    UserTextNotFound,
    ConfigError(String),
    VarError(String),
    UserPrefsLoadError,
    UserPrefsSaveError,
    UserHistoryLoadError,
    UserHistorySaveError,
    LlmConfigError(String),
    Request(String),
    JsonParse(String),
    SystemPromptLoadError,
}

impl AppError {
    /// The text the error is shown with.
    pub open spec fn spec_message(&self) -> Seq<char> {
        match self {
            AppError::Telegram(s) => "Telegram error: "@ + s@,
            AppError::UserInfoNotFound => "User info not found"@,
            AppError::UserTextNotFound => "User text not found"@,
            AppError::ConfigError(s) => "Config error: "@ + s@,
            AppError::VarError(s) => "Env variable error: "@ + s@,
            AppError::UserPrefsLoadError => "User prefs load error"@,
            AppError::UserPrefsSaveError => "User prefs save error"@,
            AppError::UserHistoryLoadError => "User history load error"@,
            AppError::UserHistorySaveError => "User history save error"@,
            AppError::LlmConfigError(s) => "LLM config error: "@ + s@,
            AppError::Request(s) => "Request error: "@ + s@,
            AppError::JsonParse(s) => "Json error: "@ + s@,
            AppError::SystemPromptLoadError => "System prompt load error"@,
        }
    }

    /// The text the error is shown with.
    pub fn message(&self) -> (r: String)
        ensures
            r@ == self.spec_message(),
    {
        match self {
            AppError::Telegram(s) => concat_str("Telegram error: ", s.as_str()),
            AppError::UserInfoNotFound => String::from_str("User info not found"),
            AppError::UserTextNotFound => String::from_str("User text not found"),
            AppError::ConfigError(s) => concat_str("Config error: ", s.as_str()),
            AppError::VarError(s) => concat_str("Env variable error: ", s.as_str()),
            AppError::UserPrefsLoadError => String::from_str("User prefs load error"),
            AppError::UserPrefsSaveError => String::from_str("User prefs save error"),
            AppError::UserHistoryLoadError => String::from_str("User history load error"),
            AppError::UserHistorySaveError => String::from_str("User history save error"),
            AppError::LlmConfigError(s) => concat_str("LLM config error: ", s.as_str()),
            AppError::Request(s) => concat_str("Request error: ", s.as_str()),
            AppError::JsonParse(s) => concat_str("Json error: ", s.as_str()),
            AppError::SystemPromptLoadError => String::from_str("System prompt load error"),
        }
    }
}

} // verus!
