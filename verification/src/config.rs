use vstd::prelude::*;
use crate::error::AppError;

verus! {

/// What `validate_max_tokens` keeps of a configured token limit: only a positive one.
pub open spec fn spec_valid_max_tokens(tokens: Option<u32>) -> Option<u32> {
    match tokens {
        Some(t) => if t > 0 { Some(t) } else { None },
        None => None,
    }
}

/// `max_completion_tokens` must be positive: a zero limit is dropped.
pub fn validate_max_tokens(tokens: Option<u32>) -> (r: Option<u32>)
    ensures
        r == spec_valid_max_tokens(tokens),
{
    match tokens {
        Some(t) => if t > 0 { Some(t) } else { None },
        None => None,
    }
}


/// The settings of the LLM provider other than the sampling parameters (`temperature`,
/// `top_p`), which are floating point and are checked where the configuration is read.
pub struct LlmCoreConfig {
    pub api_key: String,
    pub url: String,
    pub model_name: String,
    pub max_completion_tokens: Option<u32>,
}

/// The error text of a missing LLM URL.
pub open spec fn spec_missing_url() -> Seq<char> {
    "LLM URL is missing in config"@
}

/// The error text of a missing model name.
pub open spec fn spec_missing_model() -> Seq<char> {
    "LLM model name is missing in config"@
}

/// Checks the LLM settings read from the configuration file and the API key read from the
/// environment, in this order: the URL must be given, then the model name, then the key.
pub fn resolve_llm_config(
    url: Option<String>,
    model: Option<String>,
    max_completion_tokens: Option<u32>,
    api_key: Result<String, AppError>,
) -> (r: Result<LlmCoreConfig, AppError>)
    ensures
        url is None ==> (r matches Err(AppError::LlmConfigError(m)) && m@ == spec_missing_url()),
        url is Some && model is None ==> (r matches Err(AppError::LlmConfigError(m))
            && m@ == spec_missing_model()),
        url is Some && model is Some && api_key is Err ==> r == Err::<LlmCoreConfig, AppError>(
            api_key->Err_0,
        ),
        url is Some && model is Some && api_key is Ok <==> r is Ok,
        r matches Ok(c) ==> {
            &&& c.url == url->Some_0
            &&& c.model_name == model->Some_0
            &&& c.api_key == api_key->Ok_0
            &&& c.max_completion_tokens == spec_valid_max_tokens(max_completion_tokens)
        },
{
    let url = match url {
        Some(u) => u,
        None => return Err(AppError::LlmConfigError(String::from_str("LLM URL is missing in config"))),
    };
    let model_name = match model {
        Some(m) => m,
        None => return Err(
            AppError::LlmConfigError(String::from_str("LLM model name is missing in config")),
        ),
    };
    let api_key = match api_key {
        Ok(k) => k,
        Err(e) => return Err(e),
    };
    Ok(LlmCoreConfig {
        api_key,
        url,
        model_name,
        max_completion_tokens: validate_max_tokens(max_completion_tokens),
    })
}

/// The error text of a missing bot token.
pub open spec fn spec_missing_token() -> Seq<char> {
    "TELEGRAM_BOT_TOKEN must be set in the .env file!"@
}

/// The Telegram bot token, which must be set in the environment.
pub fn require_bot_token(token: Option<String>) -> (r: Result<String, AppError>)
    ensures
        token matches Some(t) ==> r == Ok::<String, AppError>(t),
        token is None ==> (r matches Err(AppError::ConfigError(m)) && m@ == spec_missing_token()),
{
    match token {
        Some(t) => Ok(t),
        None => Err(AppError::ConfigError(String::from_str("TELEGRAM_BOT_TOKEN must be set in the .env file!"))),
    }
}

} // verus!
