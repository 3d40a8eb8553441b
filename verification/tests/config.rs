use rs_tgbot::config::{require_bot_token, resolve_llm_config, validate_max_tokens};
use rs_tgbot::error::AppError;

#[test]
fn test_validate_max_tokens() {
    assert_eq!(validate_max_tokens(Some(100)), Some(100));
    assert_eq!(validate_max_tokens(Some(1)), Some(1));
    assert_eq!(validate_max_tokens(Some(0)), None);
    assert_eq!(validate_max_tokens(None), None);
}

#[test]
fn validate_max_tokens_keeps_largest() {
    assert_eq!(validate_max_tokens(Some(u32::MAX)), Some(u32::MAX));
}

#[test]
fn resolve_llm_config_all_present() {
    let c = resolve_llm_config(
        Some("https://api.minimax.io/v1/chat/completions".to_string()),
        Some("MiniMax-M2.7".to_string()),
        Some(0),
        Ok("test_api_key".to_string()),
    )
    .ok()
    .unwrap();
    assert_eq!(c.api_key, "test_api_key");
    assert_eq!(c.url, "https://api.minimax.io/v1/chat/completions");
    assert_eq!(c.model_name, "MiniMax-M2.7");
    assert_eq!(c.max_completion_tokens, None);
}

#[test]
fn resolve_llm_config_missing_url_first() {
    let r = resolve_llm_config(None, None, None, Err(AppError::VarError("x".to_string())));
    match r {
        Err(AppError::LlmConfigError(m)) => assert_eq!(m, "LLM URL is missing in config"),
        _ => panic!("expected a missing URL error"),
    }
}

#[test]
fn resolve_llm_config_missing_model() {
    let r = resolve_llm_config(Some("u".to_string()), None, Some(5), Ok("k".to_string()));
    match r {
        Err(AppError::LlmConfigError(m)) => assert_eq!(m, "LLM model name is missing in config"),
        _ => panic!("expected a missing model error"),
    }
}

#[test]
fn resolve_llm_config_missing_api_key() {
    let r = resolve_llm_config(
        Some("u".to_string()),
        Some("m".to_string()),
        Some(5),
        Err(AppError::VarError("environment variable not found".to_string())),
    );
    match r {
        Err(e) => assert_eq!(e.message(), "Env variable error: environment variable not found"),
        Ok(_) => panic!("expected an error"),
    }
}

#[test]
fn require_bot_token_present_and_missing() {
    assert_eq!(require_bot_token(Some("t0k".to_string())).ok(), Some("t0k".to_string()));
    match require_bot_token(None) {
        Err(AppError::ConfigError(m)) => {
            assert_eq!(m, "TELEGRAM_BOT_TOKEN must be set in the .env file!")
        }
        _ => panic!("expected a config error"),
    }
}
