use rs_tgbot::services::llm::{
    authorization_value, clean_reply, reply_text, system_prompt_path, ChatResponse, Choice, Message,
};

fn response_with(content: &str) -> ChatResponse {
    ChatResponse {
        choices: vec![Choice {
            message: Message { role: "assistant".to_string(), content: content.to_string() },
        }],
    }
}

#[test]
fn test_ask_llm_success() {
    assert_eq!(reply_text(&response_with("Hello, world!")), "Hello, world!");
}

#[test]
fn test_ask_llm_with_think_block() {
    assert_eq!(reply_text(&response_with("<think>Thinking...</think>Final answer")), "Final answer");
}

#[test]
fn test_ask_llm_empty_choices() {
    let response = ChatResponse { choices: vec![] };
    assert_eq!(reply_text(&response), "Error: The API replied successfully, but gave no content.");
}

#[test]
fn reply_uses_first_choice_and_first_tag() {
    let response = ChatResponse {
        choices: vec![
            Choice { message: Message { role: "assistant".to_string(), content: " a </think> b </think> c ".to_string() } },
            Choice { message: Message { role: "assistant".to_string(), content: "second".to_string() } },
        ],
    };
    assert_eq!(reply_text(&response), "b </think> c");
    assert_eq!(clean_reply("  plain\n"), "plain");
    assert_eq!(clean_reply("</think>"), "");
}

#[test]
fn authorization_header() {
    assert_eq!(authorization_value("test_key"), "Bearer test_key");
}

#[test]
fn prompt_paths() {
    assert_eq!(system_prompt_path("neuro"), "prompts/soul/neuro.md");
    assert_eq!(system_prompt_path("a.b"), "prompts/soul/a.md");
}
