use rs_tgbot::bot::commands::{command_step, Command, CommandAction, CommandEvent, CommandState};
use rs_tgbot::db::history::{HistoryBook, HistoryStore};
use rs_tgbot::db::user_prefs::{PrefsBook, UserPrefs, UserPrefsStore};
use rs_tgbot::error::AppError;
use rs_tgbot::services::llm::Message;

struct World {
    prefs: PrefsBook,
    history: HistoryBook,
    sent: Vec<(i64, String)>,
    known_souls: Vec<String>,
}

impl World {
    fn new() -> World {
        World {
            prefs: PrefsBook::new(),
            history: HistoryBook::new(10),
            sent: Vec::new(),
            known_souls: vec!["neuro".to_string(), "evil".to_string()],
        }
    }
}

fn run(chat_id: i64, sender_id: Option<u64>, command: Command, world: &mut World) -> Result<(), AppError> {
    let mut state = CommandState::Received { chat_id, sender_id, command };
    let mut event = CommandEvent::Start;
    loop {
        let (next, action) = command_step(state, event);
        state = next;
        event = match action.expect("every answer is awaited") {
            CommandAction::GetPrefs { chat_id, user_id } => CommandEvent::Prefs(world.prefs.get(chat_id, user_id)),
            CommandAction::CheckPrompt { soul } => CommandEvent::PromptExists(world.known_souls.contains(&soul)),
            CommandAction::SetPrefs { chat_id, user_id, prefs } => {
                CommandEvent::Done(world.prefs.set(chat_id, user_id, prefs))
            }
            CommandAction::ClearHistory { chat_id, user_id } => {
                CommandEvent::Done(world.history.clear_history(chat_id, user_id))
            }
            CommandAction::SendText { chat_id, text } => {
                world.sent.push((chat_id, text));
                CommandEvent::Done(Ok(()))
            }
            CommandAction::Finish(r) => return r,
        };
    }
}

#[test]
fn execute_reset_sends_confirmation_and_defaults_prefs() {
    let mut world = World::new();
    run(55, Some(100), Command::Reset, &mut world).ok().unwrap();

    assert_eq!(world.sent.len(), 1);
    assert_eq!(world.sent[0].1, "Reset to default soul and cleared history.");

    let prefs = world.prefs.get(55, 100).ok().unwrap();
    assert_eq!(prefs.soul, "neuro");
}

#[test]
fn reset_after_changes_restores_default_and_clears_history() {
    let mut world = World::new();
    world.prefs.set(55, 100, UserPrefs { soul: "evil".to_string() }).ok().unwrap();
    world.history.add_message(55, 100, Message { role: "user".to_string(), content: "x".to_string() }).ok().unwrap();
    run(55, Some(100), Command::Reset, &mut world).ok().unwrap();
    assert_eq!(world.prefs.get(55, 100).ok().unwrap().soul, "neuro");
    assert!(world.history.get_history(55, 100).ok().unwrap().is_empty());
}

#[test]
fn execute_set_wrong_arity_sends_snark() {
    let mut world = World::new();
    run(1, Some(100), Command::SetSoul("a b".to_string()), &mut world).ok().unwrap();
    assert_eq!(world.sent.len(), 1);
    assert!(world.sent[0].1.contains("wanna leave me"));
    assert_eq!(world.prefs.len(), 0);
}

#[test]
fn set_empty_sends_snark() {
    let mut world = World::new();
    run(1, Some(100), Command::SetSoul("   ".to_string()), &mut world).ok().unwrap();
    assert_eq!(world.sent[0].1, "wanna leave me but don't know how to? i won't let u go pog");
}

#[test]
fn set_known_soul_switches_and_clears_history() {
    let mut world = World::new();
    world.history.add_message(3, 100, Message { role: "user".to_string(), content: "x".to_string() }).ok().unwrap();
    run(3, Some(100), Command::SetSoul("  EVIL ".to_string()), &mut world).ok().unwrap();
    assert_eq!(world.sent, vec![(3, "I'm evil meow".to_string())]);
    assert_eq!(world.prefs.get(3, 100).ok().unwrap().soul, "evil");
    assert!(world.history.get_history(3, 100).ok().unwrap().is_empty());
}

#[test]
fn set_current_soul_says_already() {
    let mut world = World::new();
    run(3, Some(100), Command::SetSoul("Neuro".to_string()), &mut world).ok().unwrap();
    assert_eq!(world.sent, vec![(3, "I'm already neuro u gym bag".to_string())]);
    assert_eq!(world.prefs.len(), 0);
}

#[test]
fn set_unknown_soul_asks_who() {
    let mut world = World::new();
    run(3, Some(100), Command::SetSoul("ghost".to_string()), &mut world).ok().unwrap();
    assert_eq!(world.sent, vec![(3, "who is ghost?".to_string())]);
    assert_eq!(world.prefs.len(), 0);
}

#[test]
fn command_without_sender_fails() {
    let mut world = World::new();
    let r = run(3, None, Command::Reset, &mut world);
    assert!(matches!(r, Err(AppError::UserInfoNotFound)));
    assert!(world.sent.is_empty());
}
