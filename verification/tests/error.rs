use rs_tgbot::error::AppError;

#[test]
fn user_info_not_found_display() {
    assert_eq!(AppError::UserInfoNotFound.message(), "User info not found");
}

#[test]
fn user_text_not_found_display() {
    assert_eq!(AppError::UserTextNotFound.message(), "User text not found");
}

#[test]
fn llm_config_error_display() {
    let e = AppError::LlmConfigError("missing url".to_string());
    assert_eq!(e.message(), "LLM config error: missing url");
}

#[test]
fn wrapped_error_display() {
    assert_eq!(AppError::Telegram("down".to_string()).message(), "Telegram error: down");
    assert_eq!(AppError::JsonParse("eof".to_string()).message(), "Json error: eof");
    assert_eq!(AppError::Request("timeout".to_string()).message(), "Request error: timeout");
    assert_eq!(AppError::ConfigError("bad".to_string()).message(), "Config error: bad");
    assert_eq!(AppError::UserHistorySaveError.message(), "User history save error");
    assert_eq!(AppError::SystemPromptLoadError.message(), "System prompt load error");
}
