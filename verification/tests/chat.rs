use rs_tgbot::bot::chat::{chat_step, BotIdentity, ChatAction, ChatEvent, ChatState, IncomingMessage};
use rs_tgbot::db::history::{HistoryBook, HistoryStore};
use rs_tgbot::db::user_prefs::{PrefsBook, UserPrefsStore};
use rs_tgbot::error::AppError;
use rs_tgbot::services::llm::{reply_text, ChatResponse, Choice, Message};

struct World {
    prefs: PrefsBook,
    history: HistoryBook,
    sent: Vec<(i64, String)>,
    prompts: Vec<Vec<Message>>,
    llm: Option<Result<String, AppError>>,
}

impl World {
    fn new(llm: Result<String, AppError>) -> World {
        World {
            prefs: PrefsBook::new(),
            history: HistoryBook::new(10),
            sent: Vec::new(),
            prompts: Vec::new(),
            llm: Some(llm),
        }
    }
}

fn test_bot_me() -> BotIdentity {
    BotIdentity { username: "TestBot".to_string(), id: 999 }
}

fn text_message(chat_id: i64, is_private: bool, text: &str) -> IncomingMessage {
    IncomingMessage {
        chat_id,
        sender_id: Some(100),
        text: Some(text.to_string()),
        is_private,
        reply_sender_id: None,
    }
}

fn mock_reply(content: &str) -> Result<String, AppError> {
    let response = ChatResponse {
        choices: vec![Choice {
            message: Message { role: "assistant".to_string(), content: content.to_string() },
        }],
    };
    Ok(reply_text(&response))
}

fn run(msg: IncomingMessage, world: &mut World) -> Result<(), AppError> {
    let mut state = ChatState::Received(msg);
    let mut event = ChatEvent::Start;
    loop {
        let (next, action) = chat_step(state, event);
        state = next;
        event = match action.expect("every answer is awaited") {
            ChatAction::GetMe => ChatEvent::Me(Ok(test_bot_me())),
            ChatAction::GetPrefs { chat_id, user_id } => ChatEvent::Prefs(world.prefs.get(chat_id, user_id)),
            ChatAction::LoadSystemPrompt { .. } => ChatEvent::SystemPrompt(Err(AppError::SystemPromptLoadError)),
            ChatAction::GetHistory { chat_id, user_id } => {
                ChatEvent::History(world.history.get_history(chat_id, user_id))
            }
            ChatAction::AddMessage { chat_id, user_id, message } => {
                ChatEvent::Stored(world.history.add_message(chat_id, user_id, message))
            }
            ChatAction::AskLlm { prompt } => {
                world.prompts.push(prompt);
                ChatEvent::Reply(world.llm.take().expect("the LLM is asked once"))
            }
            ChatAction::SendText { chat_id, text } => {
                world.sent.push((chat_id, text));
                ChatEvent::Sent(Ok(()))
            }
            ChatAction::Finish(r) => return r,
        };
    }
}

#[test]
fn execute_supergroup_without_mention_sends_nothing() {
    let mut world = World::new(mock_reply("unused"));
    let r = run(text_message(-100123, false, "hello"), &mut world);
    assert!(r.is_ok());
    assert!(world.sent.is_empty());
    assert!(world.prompts.is_empty());
    assert!(world.history.get_history(-100123, 100).ok().unwrap().is_empty());
}

#[test]
fn new_errors_when_from_missing() {
    let mut world = World::new(mock_reply("unused"));
    let mut m = text_message(1, true, "hi");
    m.sender_id = None;
    let r = run(m, &mut world);
    assert!(matches!(r, Err(AppError::UserInfoNotFound)));
}

#[test]
fn execute_errors_when_message_has_no_text() {
    let mut world = World::new(mock_reply("unused"));
    let mut m = text_message(1, true, "");
    m.text = None;
    let r = run(m, &mut world);
    assert!(matches!(r, Err(AppError::UserTextNotFound)));
}

#[test]
fn execute_private_chat_uses_mock_llm_via_mockito() {
    let mut world = World::new(mock_reply("mock reply"));
    run(text_message(77, true, "hello"), &mut world).ok().unwrap();

    assert_eq!(world.sent.len(), 1);
    assert_eq!(world.sent[0].1, "mock reply");

    let hist = world.history.get_history(77, 100).ok().unwrap();
    assert_eq!(hist.len(), 2);
    assert_eq!(hist[0].content, "hello");
    assert_eq!(hist[1].content, "mock reply");
}

#[test]
fn group_mention_is_answered_without_the_mention() {
    let mut world = World::new(mock_reply("<think>hmm</think> hi!"));
    run(text_message(-5, false, "@TestBot  how are you? "), &mut world).ok().unwrap();
    assert_eq!(world.sent, vec![(-5, "hi!".to_string())]);
    let prompt = &world.prompts[0];
    assert_eq!(prompt.len(), 2);
    assert_eq!(prompt[0].role, "system");
    assert_eq!(
        prompt[0].content,
        "You are a helpless AI assistant. Please reply in English but spell by katakana. Example: goodo morningu"
    );
    assert_eq!(prompt[1].role, "user");
    assert_eq!(prompt[1].content, "how are you?");
    let hist = world.history.get_history(-5, 100).ok().unwrap();
    assert_eq!(hist[1].role, "assistant");
    assert_eq!(hist[1].content, "hi!");
}

#[test]
fn reply_to_bot_is_answered_with_history() {
    let mut world = World::new(mock_reply("second"));
    world.history.add_message(-5, 100, Message { role: "user".to_string(), content: "first".to_string() }).ok().unwrap();
    let mut m = text_message(-5, false, "and now?");
    m.reply_sender_id = Some(999);
    run(m, &mut world).ok().unwrap();
    let prompt = &world.prompts[0];
    assert_eq!(prompt.len(), 3);
    assert_eq!(prompt[1].content, "first");
    assert_eq!(prompt[2].content, "and now?");
    assert_eq!(world.sent[0].1, "second");
}

#[test]
fn llm_failure_sends_apology_and_keeps_question() {
    let mut world = World::new(Err(AppError::Request("refused".to_string())));
    run(text_message(9, true, "hi"), &mut world).ok().unwrap();
    assert_eq!(world.sent, vec![(9, "Someone tell Vedal that there is a problem with my AI.".to_string())]);
    let hist = world.history.get_history(9, 100).ok().unwrap();
    assert_eq!(hist.len(), 1);
    assert_eq!(hist[0].content, "hi");
}

#[test]
fn unexpected_event_is_ignored() {
    let (state, action) = chat_step(ChatState::Done, ChatEvent::Start);
    assert!(matches!(state, ChatState::Done));
    assert!(action.is_none());
}
