use vstd::prelude::*;
use crate::error::AppError;
use crate::db::user_prefs::UserPrefs;
use crate::services::llm::Message;
use crate::text::{
    concat_str, contains, lemma_find_from_first, occurs_at, replace, spec_contains, spec_find, spec_replace,
    spec_trim, trim,
};

verus! {

/// A text message, as far as the handler looks at it.
pub struct IncomingMessage {
    /// The chat it was sent in.
    pub chat_id: i64,
    /// The id of the user who sent it, if Telegram names one.
    pub sender_id: Option<u64>,
    /// Its text, if it is a text message.
    pub text: Option<String>,
    /// Whether the chat is a private chat with the bot.
    pub is_private: bool,
    /// The id of the sender of the message it replies to, if it replies to one that names it.
    pub reply_sender_id: Option<u64>,
}

/// Who the bot is.
pub struct BotIdentity {
    pub username: String,
    pub id: u64,
}

/// What the outside world answered to the last action.
pub enum ChatEvent {
    /// The handler is started.
    Start,
    /// The answer to `GetMe`.
    Me(Result<BotIdentity, AppError>),
    /// The answer to `GetPrefs`.
    Prefs(Result<UserPrefs, AppError>),
    /// The answer to `LoadSystemPrompt`.
    SystemPrompt(Result<String, AppError>),
    /// The answer to `GetHistory`.
    History(Result<Vec<Message>, AppError>),
    /// The answer to `AddMessage`.
    Stored(Result<(), AppError>),
    /// The answer to `AskLlm`.
    Reply(Result<String, AppError>),
    /// The answer to `SendText`.
    Sent(Result<(), AppError>),
}

/// What the handler asks the outside world to do next.
pub enum ChatAction {
    GetMe,
    GetPrefs { chat_id: i64, user_id: i64 },
    LoadSystemPrompt { soul: String },
    GetHistory { chat_id: i64, user_id: i64 },
    AddMessage { chat_id: i64, user_id: i64, message: Message },
    AskLlm { prompt: Vec<Message> },
    SendText { chat_id: i64, text: String },
    /// The handler is done, with this result.
    Finish(Result<(), AppError>),
}

/// Where the handling of one text message stands.
pub enum ChatState {
    Received(IncomingMessage),
    AwaitingMe { chat_id: i64, user_id: i64, text: String, is_private: bool, reply_sender_id: Option<u64> },
    AwaitingPrefs { chat_id: i64, user_id: i64, user_text: String },
    AwaitingSystemPrompt { chat_id: i64, user_id: i64, user_text: String },
    AwaitingHistory { chat_id: i64, user_id: i64, user_text: String, system_prompt: String },
    StoringQuestion { chat_id: i64, user_id: i64, prompt: Vec<Message> },
    AwaitingReply { chat_id: i64, user_id: i64 },
    SendingReply { chat_id: i64, user_id: i64, reply: String },
    StoringReply,
    SendingApology,
    Done,
}

/// The system prompt used when the soul's prompt file cannot be read.
pub open spec fn spec_default_system_prompt() -> Seq<char> {
    "You are a helpless AI assistant. Please reply in English but spell by katakana. Example: goodo morningu"@
}

/// What the bot sends when the LLM could not be reached.
pub open spec fn spec_apology() -> Seq<char> {
    "Someone tell Vedal that there is a problem with my AI."@
}

/// How a text mentions the bot: `@` and its username.
pub open spec fn spec_mention(username: Seq<char>) -> Seq<char> {
    "@"@ + username
}

/// The text of a message with every mention of the bot removed, trimmed.
pub open spec fn spec_clean_text(text: Seq<char>, username: Seq<char>) -> Seq<char> {
    spec_trim(spec_replace(text, spec_mention(username), Seq::empty()))
}

/// Whether the bot answers a message: in a private chat always, elsewhere only when it is
/// mentioned or replied to.
pub open spec fn spec_should_answer(is_private: bool, text: Seq<char>, username: Seq<char>, reply_sender_id: Option<u64>, bot_id: u64) -> bool {
    is_private || spec_contains(text, spec_mention(username)) || reply_sender_id == Some(bot_id)
}

/// `m` is a message with this role and content.
pub open spec fn is_message(m: Message, role: Seq<char>, content: Seq<char>) -> bool {
    m.role@ == role && m.content@ == content
}

/// The prompt sent to the LLM: the system prompt, the user's past messages, then the new
/// message of the user.
pub open spec fn is_prompt(prompt: Seq<Message>, system_prompt: Seq<char>, history: Seq<Message>, user_text: Seq<char>) -> bool {
    &&& prompt.len() == history.len() + 2
    &&& is_message(prompt[0], "system"@, system_prompt)
    &&& prompt.subrange(1, prompt.len() - 1) == history
    &&& is_message(prompt.last(), "user"@, user_text)
}

/// The text of a message of the user, with the bot's mention removed.
pub fn clean_text(text: &str, username: &str) -> (r: String)
    ensures
        r@ == spec_clean_text(text@, username@),
{
    let tag = concat_str("@", username);
    proof {
        reveal_strlit("@");
    }
    let removed = replace(text, tag.as_str(), "");
    proof {
        reveal_strlit("");
        assert(""@ =~= Seq::<char>::empty());
    }
    trim(removed.as_str())
}

/// Whether the bot answers a message.
pub fn should_answer(is_private: bool, text: &str, username: &str, reply_sender_id: Option<u64>, bot_id: u64) -> (b: bool)
    ensures
        b == spec_should_answer(is_private, text@, username@, reply_sender_id, bot_id),
{
    let tag = concat_str("@", username);
    let mentioned = contains(text, tag.as_str());
    let replied = match reply_sender_id {
        Some(id) => id == bot_id,
        None => false,
    };
    is_private || mentioned || replied
}

/// The prompt for the LLM: the system prompt, the past messages (none when the history
/// could not be read), then the user's new message.
pub fn build_prompt(system_prompt: String, history: Result<Vec<Message>, AppError>, user_message: Message) -> (p: Vec<Message>)
    ensures
        ({
            let past = match history { Ok(h) => h@, Err(_) => Seq::<Message>::empty() };
            &&& p@.len() == past.len() + 2
            &&& is_message(p@[0], "system"@, system_prompt@)
            &&& p@.subrange(1, p@.len() - 1) == past
            &&& p@.last() == user_message
        }),
{
    let mut p: Vec<Message> = Vec::new();
    p.push(Message::new("system", system_prompt));
    let ghost past = match history { Ok(ref h) => h@, Err(_) => Seq::<Message>::empty() };
    match history {
        Ok(h) => {
            let mut h = h;
            p.append(&mut h);
        },
        Err(_) => {},
    }
    p.push(user_message);
    assert(p@.subrange(1, p@.len() - 1) =~= past);
    p
}

/// The next step of the text handler, as `chat_step` takes it.
pub open spec fn spec_chat_step(pre: ChatState, event: ChatEvent, post: ChatState, action: Option<ChatAction>) -> bool {
    match (pre, event) {
        (ChatState::Received(m), ChatEvent::Start) => {
            if m.sender_id is None {
                post == ChatState::Done && action == Some(ChatAction::Finish(Err(AppError::UserInfoNotFound)))
            } else if m.text is None {
                post == ChatState::Done && action == Some(ChatAction::Finish(Err(AppError::UserTextNotFound)))
            } else {
                post == (ChatState::AwaitingMe {
                    chat_id: m.chat_id,
                    user_id: m.sender_id->Some_0 as i64,
                    text: m.text->Some_0,
                    is_private: m.is_private,
                    reply_sender_id: m.reply_sender_id,
                }) && action == Some(ChatAction::GetMe)
            }
        },
        (ChatState::AwaitingMe { chat_id, user_id, text, is_private, reply_sender_id }, ChatEvent::Me(r)) => {
            match r {
                Err(e) => post == ChatState::Done && action == Some(ChatAction::Finish(Err(e))),
                Ok(me) => if !spec_should_answer(is_private, text@, me.username@, reply_sender_id, me.id) {
                    post == ChatState::Done && action == Some(ChatAction::Finish(Ok(())))
                } else {
                    &&& post matches ChatState::AwaitingPrefs { chat_id: c, user_id: u, user_text: t }
                    &&& c == chat_id && u == user_id && t@ == spec_clean_text(text@, me.username@)
                    &&& action == Some(ChatAction::GetPrefs { chat_id, user_id })
                },
            }
        },
        (ChatState::AwaitingPrefs { chat_id, user_id, user_text }, ChatEvent::Prefs(r)) => {
            match r {
                Err(e) => post == ChatState::Done && action == Some(ChatAction::Finish(Err(e))),
                Ok(p) => post == (ChatState::AwaitingSystemPrompt { chat_id, user_id, user_text })
                    && action == Some(ChatAction::LoadSystemPrompt { soul: p.soul }),
            }
        },
        (ChatState::AwaitingSystemPrompt { chat_id, user_id, user_text }, ChatEvent::SystemPrompt(r)) => {
            &&& post matches ChatState::AwaitingHistory { chat_id: c, user_id: u, user_text: t, system_prompt: s }
            &&& c == chat_id && u == user_id && t == user_text
            &&& s@ == match r { Ok(text) => text@, Err(_) => spec_default_system_prompt() }
            &&& action == Some(ChatAction::GetHistory { chat_id, user_id })
        },
        (ChatState::AwaitingHistory { chat_id, user_id, user_text, system_prompt }, ChatEvent::History(r)) => {
            &&& post matches ChatState::StoringQuestion { chat_id: c, user_id: u, prompt }
            &&& c == chat_id && u == user_id
            &&& is_prompt(prompt@, system_prompt@, match r { Ok(h) => h@, Err(_) => Seq::<Message>::empty() }, user_text@)
            &&& action matches Some(ChatAction::AddMessage { chat_id: ac, user_id: au, message })
            &&& ac == chat_id && au == user_id && message == prompt@.last()
        },
        (ChatState::StoringQuestion { chat_id, user_id, prompt }, ChatEvent::Stored(r)) => {
            match r {
                Err(e) => post == ChatState::Done && action == Some(ChatAction::Finish(Err(e))),
                Ok(_) => post == (ChatState::AwaitingReply { chat_id, user_id }) && action == Some(ChatAction::AskLlm { prompt }),
            }
        },
        (ChatState::AwaitingReply { chat_id, user_id }, ChatEvent::Reply(r)) => {
            match r {
                Ok(reply) => {
                    &&& post matches ChatState::SendingReply { chat_id: c, user_id: u, reply: kept }
                    &&& c == chat_id && u == user_id && kept == reply
                    &&& action matches Some(ChatAction::SendText { chat_id: sc, text })
                    &&& sc == chat_id && text == reply
                },
                Err(_) => {
                    &&& post == ChatState::SendingApology
                    &&& action matches Some(ChatAction::SendText { chat_id: sc, text })
                    &&& sc == chat_id && text@ == spec_apology()
                },
            }
        },
        (ChatState::SendingReply { chat_id, user_id, reply }, ChatEvent::Sent(r)) => {
            match r {
                Err(e) => post == ChatState::Done && action == Some(ChatAction::Finish(Err(e))),
                Ok(_) => {
                    &&& post == ChatState::StoringReply
                    &&& action matches Some(ChatAction::AddMessage { chat_id: ac, user_id: au, message })
                    &&& ac == chat_id && au == user_id && is_message(message, "assistant"@, reply@)
                },
            }
        },
        (ChatState::StoringReply, ChatEvent::Stored(_)) => {
            post == ChatState::Done && action == Some(ChatAction::Finish(Ok(())))
        },
        (ChatState::SendingApology, ChatEvent::Sent(r)) => {
            post == ChatState::Done && action == Some(ChatAction::Finish(r))
        },
        (other, _) => post == other && action is None,
    }
}


/// The next step of the text handler: from where it stands and what the outside world
/// answered, where it stands next and what it asks for. An event that does not answer the
/// pending action leaves the state as it is and asks for nothing.
pub fn chat_step(state: ChatState, event: ChatEvent) -> (r: (ChatState, Option<ChatAction>))
    ensures
        spec_chat_step(state, event, r.0, r.1),
{
    match (state, event) {
        (ChatState::Received(m), ChatEvent::Start) => {
            let sender = match m.sender_id {
                Some(id) => id,
                None => return (ChatState::Done, Some(ChatAction::Finish(Err(AppError::UserInfoNotFound)))),
            };
            let text = match m.text {
                Some(t) => t,
                None => return (ChatState::Done, Some(ChatAction::Finish(Err(AppError::UserTextNotFound)))),
            };
            (
                ChatState::AwaitingMe {
                    chat_id: m.chat_id,
                    user_id: sender as i64,
                    text,
                    is_private: m.is_private,
                    reply_sender_id: m.reply_sender_id,
                },
                Some(ChatAction::GetMe),
            )
        },
        (ChatState::AwaitingMe { chat_id, user_id, text, is_private, reply_sender_id }, ChatEvent::Me(r)) => {
            match r {
                Err(e) => (ChatState::Done, Some(ChatAction::Finish(Err(e)))),
                Ok(me) => {
                    if !should_answer(is_private, text.as_str(), me.username.as_str(), reply_sender_id, me.id) {
                        (ChatState::Done, Some(ChatAction::Finish(Ok(()))))
                    } else {
                        let user_text = clean_text(text.as_str(), me.username.as_str());
                        (
                            ChatState::AwaitingPrefs { chat_id, user_id, user_text },
                            Some(ChatAction::GetPrefs { chat_id, user_id }),
                        )
                    }
                },
            }
        },
        (ChatState::AwaitingPrefs { chat_id, user_id, user_text }, ChatEvent::Prefs(r)) => {
            match r {
                Err(e) => (ChatState::Done, Some(ChatAction::Finish(Err(e)))),
                Ok(p) => (
                    ChatState::AwaitingSystemPrompt { chat_id, user_id, user_text },
                    Some(ChatAction::LoadSystemPrompt { soul: p.soul }),
                ),
            }
        },
        (ChatState::AwaitingSystemPrompt { chat_id, user_id, user_text }, ChatEvent::SystemPrompt(r)) => {
            let system_prompt = match r {
                Ok(text) => text,
                Err(_) => String::from_str(
                    "You are a helpless AI assistant. Please reply in English but spell by katakana. Example: goodo morningu",
                ),
            };
            (
                ChatState::AwaitingHistory { chat_id, user_id, user_text, system_prompt },
                Some(ChatAction::GetHistory { chat_id, user_id }),
            )
        },
        (ChatState::AwaitingHistory { chat_id, user_id, user_text, system_prompt }, ChatEvent::History(r)) => {
            let user_message = Message::new("user", user_text);
            let stored = user_message.clone();
            let prompt = build_prompt(system_prompt, r, user_message);
            (
                ChatState::StoringQuestion { chat_id, user_id, prompt },
                Some(ChatAction::AddMessage { chat_id, user_id, message: stored }),
            )
        },
        (ChatState::StoringQuestion { chat_id, user_id, prompt }, ChatEvent::Stored(r)) => {
            match r {
                Err(e) => (ChatState::Done, Some(ChatAction::Finish(Err(e)))),
                Ok(_) => (ChatState::AwaitingReply { chat_id, user_id }, Some(ChatAction::AskLlm { prompt })),
            }
        },
        (ChatState::AwaitingReply { chat_id, user_id }, ChatEvent::Reply(r)) => {
            match r {
                Ok(reply) => {
                    let text = reply.clone();
                    (
                        ChatState::SendingReply { chat_id, user_id, reply },
                        Some(ChatAction::SendText { chat_id, text }),
                    )
                },
                Err(_) => (
                    ChatState::SendingApology,
                    Some(ChatAction::SendText {
                        chat_id,
                        text: String::from_str("Someone tell Vedal that there is a problem with my AI."),
                    }),
                ),
            }
        },
        (ChatState::SendingReply { chat_id, user_id, reply }, ChatEvent::Sent(r)) => {
            match r {
                Err(e) => (ChatState::Done, Some(ChatAction::Finish(Err(e)))),
                Ok(_) => (
                    ChatState::StoringReply,
                    Some(ChatAction::AddMessage { chat_id, user_id, message: Message::new("assistant", reply) }),
                ),
            }
        },
        (ChatState::StoringReply, ChatEvent::Stored(_)) => (ChatState::Done, Some(ChatAction::Finish(Ok(())))),
        (ChatState::SendingApology, ChatEvent::Sent(r)) => (ChatState::Done, Some(ChatAction::Finish(r))),
        (other, _) => (other, None),
    }
}


/// A message outside a private chat that neither mentions the bot nor replies to it is
/// ignored: the handler finishes successfully without reading, storing or sending anything.
pub proof fn ignores_unaddressed_group_message(
    chat_id: i64,
    user_id: i64,
    text: String,
    reply_sender_id: Option<u64>,
    me: BotIdentity,
    post: ChatState,
    action: Option<ChatAction>,
)
    requires
        !spec_contains(text@, spec_mention(me.username@)),
        reply_sender_id != Some(me.id),
        spec_chat_step(
            ChatState::AwaitingMe { chat_id, user_id, text, is_private: false, reply_sender_id },
            ChatEvent::Me(Ok(me)),
            post,
            action,
        ),
    ensures
        post == ChatState::Done,
        action == Some(ChatAction::Finish(Ok(()))),
{
}

/// Whatever a message holds, the user's question is stored in the history before the LLM is
/// asked, and it is the last message of the prompt the LLM gets.
pub proof fn question_stored_before_asking(
    chat_id: i64,
    user_id: i64,
    user_text: String,
    system_prompt: String,
    history: Result<Vec<Message>, AppError>,
    post: ChatState,
    action: Option<ChatAction>,
)
    requires
        spec_chat_step(
            ChatState::AwaitingHistory { chat_id, user_id, user_text, system_prompt },
            ChatEvent::History(history),
            post,
            action,
        ),
    ensures
        action matches Some(ChatAction::AddMessage { chat_id: c, user_id: u, message })
            && c == chat_id && u == user_id && is_message(message, "user"@, user_text@),
        post matches ChatState::StoringQuestion { prompt, .. } && action matches Some(
            ChatAction::AddMessage { message, .. },
        ) && prompt@.last() == message,
{
}


/// What the user is told is what the history remembers: a reply of the LLM is sent to the
/// chat as it is, and once it is sent, that same text is stored as the assistant's message
/// of the same user.
pub proof fn sent_reply_is_stored_reply(
    chat_id: i64,
    user_id: i64,
    reply: String,
    mid: ChatState,
    first: Option<ChatAction>,
    post: ChatState,
    second: Option<ChatAction>,
)
    requires
        spec_chat_step(ChatState::AwaitingReply { chat_id, user_id }, ChatEvent::Reply(Ok(reply)), mid, first),
        spec_chat_step(mid, ChatEvent::Sent(Ok(())), post, second),
    ensures
        first matches Some(ChatAction::SendText { chat_id: c, text }) && c == chat_id && text == reply,
        second matches Some(ChatAction::AddMessage { chat_id: c, user_id: u, message }) && c == chat_id
            && u == user_id && is_message(message, "assistant"@, reply@),
        post == ChatState::StoringReply,
{
}


/// A message that mentions the bot (`@` and its username) anywhere in its text is answered,
/// in any chat and whether or not it replies to anything.
pub proof fn mention_anywhere_is_answered(
    is_private: bool,
    text: Seq<char>,
    username: Seq<char>,
    reply_sender_id: Option<u64>,
    bot_id: u64,
    i: int,
)
    requires
        occurs_at(text, "@"@ + username, i),
    ensures
        spec_should_answer(is_private, text, username, reply_sender_id, bot_id),
{
    lemma_find_from_first(text, "@"@ + username, 0);
    if spec_find(text, "@"@ + username) is None {
        assert(!occurs_at(text, "@"@ + username, i));
    }
}

/// When the bot is mentioned anywhere in a message, the handler goes on to read the
/// sender's preferences (it answers), in any chat.
pub proof fn mentioned_message_goes_on(
    chat_id: i64,
    user_id: i64,
    text: String,
    is_private: bool,
    reply_sender_id: Option<u64>,
    me: BotIdentity,
    i: int,
    post: ChatState,
    action: Option<ChatAction>,
)
    requires
        occurs_at(text@, "@"@ + me.username@, i),
        spec_chat_step(
            ChatState::AwaitingMe { chat_id, user_id, text, is_private, reply_sender_id },
            ChatEvent::Me(Ok(me)),
            post,
            action,
        ),
    ensures
        post matches ChatState::AwaitingPrefs { chat_id: c, user_id: u, .. } && c == chat_id && u == user_id,
        action == Some(ChatAction::GetPrefs { chat_id, user_id }),
{
    mention_anywhere_is_answered(is_private, text@, me.username@, reply_sender_id, me.id, i);
}

/// The system prompt that is loaded is the one of the soul the preference store gave for
/// the user, whatever that soul is.
pub proof fn chosen_soul_prompt_is_loaded(
    chat_id: i64,
    user_id: i64,
    user_text: String,
    prefs: UserPrefs,
    post: ChatState,
    action: Option<ChatAction>,
)
    requires
        spec_chat_step(
            ChatState::AwaitingPrefs { chat_id, user_id, user_text },
            ChatEvent::Prefs(Ok(prefs)),
            post,
            action,
        ),
    ensures
        action matches Some(ChatAction::LoadSystemPrompt { soul }) && soul@ == prefs.soul@,
        post == (ChatState::AwaitingSystemPrompt { chat_id, user_id, user_text }),
{
}

} // verus!
