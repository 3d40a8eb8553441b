use vstd::prelude::*;
use crate::error::AppError;
use crate::db::user_prefs::{spec_default_soul, UserPrefs};
use crate::text::{concat_str, contains, spec_contains, spec_to_lowercase, spec_trim, to_lowercase, trim};

verus! {

/// The commands the bot understands.
#[derive(Debug)]
pub enum Command {
    /// `/set <soul>`: speak with another soul.
    SetSoul(String),
    /// `/reset`: back to the default soul, with the history forgotten.
    Reset,
}

/// What the outside world answered to the last action.
pub enum CommandEvent {
    /// The handler is started.
    Start,
    /// The answer to `GetPrefs`.
    Prefs(Result<UserPrefs, AppError>),
    /// The answer to `CheckPrompt`: whether the soul has a system prompt.
    PromptExists(bool),
    /// The answer to `SetPrefs`, `ClearHistory` or `SendText`.
    Done(Result<(), AppError>),
}

/// What the handler asks the outside world to do next.
pub enum CommandAction {
    GetPrefs { chat_id: i64, user_id: i64 },
    CheckPrompt { soul: String },
    SetPrefs { chat_id: i64, user_id: i64, prefs: UserPrefs },
    ClearHistory { chat_id: i64, user_id: i64 },
    SendText { chat_id: i64, text: String },
    /// The handler is done, with this result.
    Finish(Result<(), AppError>),
}

/// Where the handling of one command stands.
pub enum CommandState {
    Received { chat_id: i64, sender_id: Option<u64>, command: Command },
    AwaitingCurrentSoul { chat_id: i64, user_id: i64, soul: String },
    CheckingPrompt { chat_id: i64, user_id: i64, soul: String },
    SettingSoul { chat_id: i64, user_id: i64, soul: String },
    ClearingAfterSet { chat_id: i64, user_id: i64, soul: String },
    Resetting { chat_id: i64, user_id: i64 },
    ClearingAfterReset { chat_id: i64, user_id: i64 },
    /// The last message is on its way; its result is the handler's.
    Sending,
    Done,
}

/// What the bot says to a `/set` without exactly one soul name.
pub open spec fn spec_set_usage_reply() -> Seq<char> {
    "wanna leave me but don't know how to? i won't let u go pog"@
}

/// What the bot says when asked for the soul it already has.
pub open spec fn spec_already_reply(soul: Seq<char>) -> Seq<char> {
    "I'm already "@ + soul + " u gym bag"@
}

/// What the bot says when asked for a soul it has no prompt for.
pub open spec fn spec_unknown_soul_reply(soul: Seq<char>) -> Seq<char> {
    "who is "@ + soul + "?"@
}

/// What the bot says once it took another soul.
pub open spec fn spec_new_soul_reply(soul: Seq<char>) -> Seq<char> {
    "I'm "@ + soul + " meow"@
}

/// What the bot says once it was reset.
pub open spec fn spec_reset_reply() -> Seq<char> {
    "Reset to default soul and cleared history."@
}

/// The argument of `/set` names exactly one soul: after trimming it is not empty and holds
/// no space.
pub open spec fn spec_is_soul_name(arg: Seq<char>) -> bool {
    spec_trim(arg).len() > 0 && !spec_contains(spec_trim(arg), " "@)
}

/// The soul a valid `/set` argument names: trimmed and in lower case.
pub open spec fn spec_soul_name(arg: Seq<char>) -> Seq<char> {
    spec_to_lowercase(spec_trim(arg))
}

/// The soul a `/set` argument names, if it names exactly one.
pub fn soul_name(arg: &str) -> (r: Option<String>)
    ensures
        r is Some <==> spec_is_soul_name(arg@),
        r matches Some(s) ==> s@ == spec_soul_name(arg@),
{
    let t = trim(arg);
    if t.as_str().is_empty() || contains(t.as_str(), " ") {
        None
    } else {
        Some(to_lowercase(t.as_str()))
    }
}

/// The next step of the command handler, as `command_step` takes it.
pub open spec fn spec_command_step(pre: CommandState, event: CommandEvent, post: CommandState, action: Option<CommandAction>) -> bool {
    match (pre, event) {
        (CommandState::Received { chat_id, sender_id, command }, CommandEvent::Start) => {
            if sender_id is None {
                post == CommandState::Done && action == Some(CommandAction::Finish(Err(AppError::UserInfoNotFound)))
            } else {
                let user_id = sender_id->Some_0 as i64;
                match command {
                    Command::SetSoul(arg) => if !spec_is_soul_name(arg@) {
                        &&& post == CommandState::Sending
                        &&& action matches Some(CommandAction::SendText { chat_id: c, text })
                        &&& c == chat_id && text@ == spec_set_usage_reply()
                    } else {
                        &&& post matches CommandState::AwaitingCurrentSoul { chat_id: c, user_id: u, soul }
                        &&& c == chat_id && u == user_id && soul@ == spec_soul_name(arg@)
                        &&& action == Some(CommandAction::GetPrefs { chat_id, user_id })
                    },
                    Command::Reset => {
                        &&& post == (CommandState::Resetting { chat_id, user_id })
                        &&& action matches Some(CommandAction::SetPrefs { chat_id: c, user_id: u, prefs })
                        &&& c == chat_id && u == user_id && prefs.soul@ == spec_default_soul()
                    },
                }
            }
        },
        (CommandState::AwaitingCurrentSoul { chat_id, user_id, soul }, CommandEvent::Prefs(r)) => {
            match r {
                Err(e) => post == CommandState::Done && action == Some(CommandAction::Finish(Err(e))),
                Ok(current) => if soul@ == current.soul@ {
                    &&& post == CommandState::Sending
                    &&& action matches Some(CommandAction::SendText { chat_id: c, text })
                    &&& c == chat_id && text@ == spec_already_reply(soul@)
                } else {
                    &&& post == (CommandState::CheckingPrompt { chat_id, user_id, soul })
                    &&& action matches Some(CommandAction::CheckPrompt { soul: s })
                    &&& s == soul
                },
            }
        },
        (CommandState::CheckingPrompt { chat_id, user_id, soul }, CommandEvent::PromptExists(exists)) => {
            if !exists {
                &&& post == CommandState::Sending
                &&& action matches Some(CommandAction::SendText { chat_id: c, text })
                &&& c == chat_id && text@ == spec_unknown_soul_reply(soul@)
            } else {
                &&& post == (CommandState::SettingSoul { chat_id, user_id, soul })
                &&& action matches Some(CommandAction::SetPrefs { chat_id: c, user_id: u, prefs })
                &&& c == chat_id && u == user_id && prefs.soul == soul
            }
        },
        (CommandState::SettingSoul { chat_id, user_id, soul }, CommandEvent::Done(r)) => {
            match r {
                Err(e) => post == CommandState::Done && action == Some(CommandAction::Finish(Err(e))),
                Ok(_) => post == (CommandState::ClearingAfterSet { chat_id, user_id, soul })
                    && action == Some(CommandAction::ClearHistory { chat_id, user_id }),
            }
        },
        (CommandState::ClearingAfterSet { chat_id, user_id, soul }, CommandEvent::Done(r)) => {
            match r {
                Err(e) => post == CommandState::Done && action == Some(CommandAction::Finish(Err(e))),
                Ok(_) => {
                    &&& post == CommandState::Sending
                    &&& action matches Some(CommandAction::SendText { chat_id: c, text })
                    &&& c == chat_id && text@ == spec_new_soul_reply(soul@)
                },
            }
        },
        (CommandState::Resetting { chat_id, user_id }, CommandEvent::Done(r)) => {
            match r {
                Err(e) => post == CommandState::Done && action == Some(CommandAction::Finish(Err(e))),
                Ok(_) => post == (CommandState::ClearingAfterReset { chat_id, user_id })
                    && action == Some(CommandAction::ClearHistory { chat_id, user_id }),
            }
        },
        (CommandState::ClearingAfterReset { chat_id, user_id }, CommandEvent::Done(r)) => {
            match r {
                Err(e) => post == CommandState::Done && action == Some(CommandAction::Finish(Err(e))),
                Ok(_) => {
                    &&& post == CommandState::Sending
                    &&& action matches Some(CommandAction::SendText { chat_id: c, text })
                    &&& c == chat_id && text@ == spec_reset_reply()
                },
            }
        },
        (CommandState::Sending, CommandEvent::Done(r)) => {
            post == CommandState::Done && action == Some(CommandAction::Finish(r))
        },
        (other, _) => post == other && action is None,
    }
}

/// The next step of the command handler: from where it stands and what the outside world
/// answered, where it stands next and what it asks for. An event that does not answer the
/// pending action leaves the state as it is and asks for nothing.
pub fn command_step(state: CommandState, event: CommandEvent) -> (r: (CommandState, Option<CommandAction>))
    ensures
        spec_command_step(state, event, r.0, r.1),
{
    match (state, event) {
        (CommandState::Received { chat_id, sender_id, command }, CommandEvent::Start) => {
            let user_id = match sender_id {
                Some(id) => id as i64,
                None => return (CommandState::Done, Some(CommandAction::Finish(Err(AppError::UserInfoNotFound)))),
            };
            match command {
                Command::SetSoul(arg) => match soul_name(arg.as_str()) {
                    None => (
                        CommandState::Sending,
                        Some(CommandAction::SendText {
                            chat_id,
                            text: String::from_str("wanna leave me but don't know how to? i won't let u go pog"),
                        }),
                    ),
                    Some(soul) => (
                        CommandState::AwaitingCurrentSoul { chat_id, user_id, soul },
                        Some(CommandAction::GetPrefs { chat_id, user_id }),
                    ),
                },
                Command::Reset => (
                    CommandState::Resetting { chat_id, user_id },
                    Some(CommandAction::SetPrefs { chat_id, user_id, prefs: UserPrefs::default() }),
                ),
            }
        },
        (CommandState::AwaitingCurrentSoul { chat_id, user_id, soul }, CommandEvent::Prefs(r)) => {
            match r {
                Err(e) => (CommandState::Done, Some(CommandAction::Finish(Err(e)))),
                Ok(current) => {
                    if soul == current.soul {
                        let text = concat_str(concat_str("I'm already ", soul.as_str()).as_str(), " u gym bag");
                        (CommandState::Sending, Some(CommandAction::SendText { chat_id, text }))
                    } else {
                        let asked = soul.clone();
                        (
                            CommandState::CheckingPrompt { chat_id, user_id, soul },
                            Some(CommandAction::CheckPrompt { soul: asked }),
                        )
                    }
                },
            }
        },
        (CommandState::CheckingPrompt { chat_id, user_id, soul }, CommandEvent::PromptExists(exists)) => {
            if !exists {
                let text = concat_str(concat_str("who is ", soul.as_str()).as_str(), "?");
                (CommandState::Sending, Some(CommandAction::SendText { chat_id, text }))
            } else {
                let prefs = UserPrefs { soul: soul.clone() };
                (
                    CommandState::SettingSoul { chat_id, user_id, soul },
                    Some(CommandAction::SetPrefs { chat_id, user_id, prefs }),
                )
            }
        },
        (CommandState::SettingSoul { chat_id, user_id, soul }, CommandEvent::Done(r)) => {
            match r {
                Err(e) => (CommandState::Done, Some(CommandAction::Finish(Err(e)))),
                Ok(_) => (
                    CommandState::ClearingAfterSet { chat_id, user_id, soul },
                    Some(CommandAction::ClearHistory { chat_id, user_id }),
                ),
            }
        },
        (CommandState::ClearingAfterSet { chat_id, user_id, soul }, CommandEvent::Done(r)) => {
            match r {
                Err(e) => (CommandState::Done, Some(CommandAction::Finish(Err(e)))),
                Ok(_) => {
                    let text = concat_str(concat_str("I'm ", soul.as_str()).as_str(), " meow");
                    (CommandState::Sending, Some(CommandAction::SendText { chat_id, text }))
                },
            }
        },
        (CommandState::Resetting { chat_id, user_id }, CommandEvent::Done(r)) => {
            match r {
                Err(e) => (CommandState::Done, Some(CommandAction::Finish(Err(e)))),
                Ok(_) => (
                    CommandState::ClearingAfterReset { chat_id, user_id },
                    Some(CommandAction::ClearHistory { chat_id, user_id }),
                ),
            }
        },
        (CommandState::ClearingAfterReset { chat_id, user_id }, CommandEvent::Done(r)) => {
            match r {
                Err(e) => (CommandState::Done, Some(CommandAction::Finish(Err(e)))),
                Ok(_) => (
                    CommandState::Sending,
                    Some(CommandAction::SendText {
                        chat_id,
                        text: String::from_str("Reset to default soul and cleared history."),
                    }),
                ),
            }
        },
        (CommandState::Sending, CommandEvent::Done(r)) => (CommandState::Done, Some(CommandAction::Finish(r))),
        (other, _) => (other, None),
    }
}


/// A `/set` whose argument is not exactly one soul name changes nothing: the only thing the
/// bot does is to answer with the usage reply.
pub proof fn set_without_one_name_changes_nothing(
    chat_id: i64,
    sender_id: Option<u64>,
    arg: String,
    post: CommandState,
    action: Option<CommandAction>,
)
    requires
        sender_id is Some,
        !spec_is_soul_name(arg@),
        spec_command_step(
            CommandState::Received { chat_id, sender_id, command: Command::SetSoul(arg) },
            CommandEvent::Start,
            post,
            action,
        ),
    ensures
        post == CommandState::Sending,
        action matches Some(CommandAction::SendText { chat_id: c, text }) && c == chat_id
            && text@ == spec_set_usage_reply(),
{
}


/// A `/reset` whose store updates succeed sets the default soul, then clears the history,
/// then confirms, and finishes with the result of the confirmation.
pub proof fn reset_sets_default_then_clears(
    chat_id: i64,
    sender: u64,
    s1: CommandState,
    a1: Option<CommandAction>,
    s2: CommandState,
    a2: Option<CommandAction>,
    s3: CommandState,
    a3: Option<CommandAction>,
    sent: Result<(), AppError>,
    s4: CommandState,
    a4: Option<CommandAction>,
)
    requires
        spec_command_step(
            CommandState::Received { chat_id, sender_id: Some(sender), command: Command::Reset },
            CommandEvent::Start,
            s1,
            a1,
        ),
        spec_command_step(s1, CommandEvent::Done(Ok(())), s2, a2),
        spec_command_step(s2, CommandEvent::Done(Ok(())), s3, a3),
        spec_command_step(s3, CommandEvent::Done(sent), s4, a4),
    ensures
        a1 matches Some(CommandAction::SetPrefs { chat_id: c, user_id: u, prefs }) && c == chat_id
            && u == sender as i64 && prefs.soul@ == spec_default_soul(),
        a2 == Some(CommandAction::ClearHistory { chat_id, user_id: sender as i64 }),
        a3 matches Some(CommandAction::SendText { chat_id: c, text }) && c == chat_id
            && text@ == spec_reset_reply(),
        s4 == CommandState::Done,
        a4 == Some(CommandAction::Finish(sent)),
{
}

/// A `/set` of a soul that has a prompt and differs from the current one, whose store
/// updates succeed, stores that soul, then clears the history, then confirms.
pub proof fn set_new_soul_stores_then_clears(
    chat_id: i64,
    sender: u64,
    arg: String,
    current: UserPrefs,
    s1: CommandState,
    a1: Option<CommandAction>,
    s2: CommandState,
    a2: Option<CommandAction>,
    s3: CommandState,
    a3: Option<CommandAction>,
    s4: CommandState,
    a4: Option<CommandAction>,
    s5: CommandState,
    a5: Option<CommandAction>,
)
    requires
        spec_is_soul_name(arg@),
        spec_soul_name(arg@) != current.soul@,
        spec_command_step(
            CommandState::Received { chat_id, sender_id: Some(sender), command: Command::SetSoul(arg) },
            CommandEvent::Start,
            s1,
            a1,
        ),
        spec_command_step(s1, CommandEvent::Prefs(Ok(current)), s2, a2),
        spec_command_step(s2, CommandEvent::PromptExists(true), s3, a3),
        spec_command_step(s3, CommandEvent::Done(Ok(())), s4, a4),
        spec_command_step(s4, CommandEvent::Done(Ok(())), s5, a5),
    ensures
        a1 == Some(CommandAction::GetPrefs { chat_id, user_id: sender as i64 }),
        a2 matches Some(CommandAction::CheckPrompt { soul }) && soul@ == spec_soul_name(arg@),
        a3 matches Some(CommandAction::SetPrefs { chat_id: c, user_id: u, prefs }) && c == chat_id
            && u == sender as i64 && prefs.soul@ == spec_soul_name(arg@),
        a4 == Some(CommandAction::ClearHistory { chat_id, user_id: sender as i64 }),
        a5 matches Some(CommandAction::SendText { chat_id: c, text }) && c == chat_id
            && text@ == spec_new_soul_reply(spec_soul_name(arg@)),
{
}


/// Asking for the soul the user already has changes nothing: whatever that soul is, the
/// bot only answers that it already is that soul.
pub proof fn set_current_soul_only_says_already(
    chat_id: i64,
    user_id: i64,
    soul: String,
    current: UserPrefs,
    post: CommandState,
    action: Option<CommandAction>,
)
    requires
        soul@ == current.soul@,
        spec_command_step(
            CommandState::AwaitingCurrentSoul { chat_id, user_id, soul },
            CommandEvent::Prefs(Ok(current)),
            post,
            action,
        ),
    ensures
        post == CommandState::Sending,
        action matches Some(CommandAction::SendText { chat_id: c, text }) && c == chat_id
            && text@ == "I'm already "@ + soul@ + " u gym bag"@,
{
}

/// Asking for a soul other than the user's current one goes on to check that the soul has a
/// prompt, for that very soul.
pub proof fn set_other_soul_checks_prompt(
    chat_id: i64,
    user_id: i64,
    soul: String,
    current: UserPrefs,
    post: CommandState,
    action: Option<CommandAction>,
)
    requires
        soul@ != current.soul@,
        spec_command_step(
            CommandState::AwaitingCurrentSoul { chat_id, user_id, soul },
            CommandEvent::Prefs(Ok(current)),
            post,
            action,
        ),
    ensures
        post == (CommandState::CheckingPrompt { chat_id, user_id, soul }),
        action matches Some(CommandAction::CheckPrompt { soul: s }) && s@ == soul@,
{
}

} // verus!
