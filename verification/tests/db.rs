use rs_tgbot::db::history::{HistoryBook, HistoryStore};
use rs_tgbot::db::key::{history_file_name, key_of_file_name, user_key};
use rs_tgbot::db::user_prefs::{PrefsBook, UserPrefs, UserPrefsStore};
use rs_tgbot::services::llm::Message;

fn user_msg(content: &str) -> Message {
    Message { role: "user".to_string(), content: content.to_string() }
}

#[test]
fn user_prefs_default_matches_expected() {
    let p = UserPrefs::default();
    assert_eq!(p.soul, "neuro");
}

#[test]
fn json_user_prefs_set_and_get() {
    let mut store = PrefsBook::new();
    store.set(100, 200, UserPrefs { soul: "alpha".to_string() }).ok().unwrap();
    let got = store.get(100, 200).ok().unwrap();
    assert_eq!(got.soul, "alpha");
}

#[test]
fn sqlite_user_prefs_get_default() {
    let store = PrefsBook::new();
    let prefs = store.get(10, 20).ok().unwrap();
    assert_eq!(prefs.soul, "neuro");
}

#[test]
fn sqlite_user_prefs_set_and_persist() {
    let mut store = PrefsBook::new();
    store.set(1, 2, UserPrefs { soul: "custom".to_string() }).ok().unwrap();
    // read the stored rows back into a fresh book, as a restart does
    let reopened = PrefsBook::from_entries(&store.snapshot());
    let prefs = reopened.get(1, 2).ok().unwrap();
    assert_eq!(prefs.soul, "custom");
}

#[test]
fn prefs_of_one_user_leave_others_alone() {
    let mut store = PrefsBook::new();
    store.set(1, 2, UserPrefs { soul: "alpha".to_string() }).ok().unwrap();
    store.set(1, 3, UserPrefs { soul: "beta".to_string() }).ok().unwrap();
    store.set(12, 3, UserPrefs { soul: "gamma".to_string() }).ok().unwrap();
    store.set(1, 2, UserPrefs { soul: "delta".to_string() }).ok().unwrap();
    assert_eq!(store.get(1, 2).ok().unwrap().soul, "delta");
    assert_eq!(store.get(1, 3).ok().unwrap().soul, "beta");
    assert_eq!(store.get(12, 3).ok().unwrap().soul, "gamma");
    assert_eq!(store.get(2, 1).ok().unwrap().soul, "neuro");
    assert_eq!(store.len(), 3);
}

#[test]
fn json_history_add_get_clear() {
    let mut store = HistoryBook::new(10);
    store.add_message(5, 6, user_msg("ping")).ok().unwrap();
    let hist = store.get_history(5, 6).ok().unwrap();
    assert_eq!(hist.len(), 1);
    assert_eq!(hist[0].content, "ping");

    store.clear_history(5, 6).ok().unwrap();
    let hist = store.get_history(5, 6).ok().unwrap();
    assert!(hist.is_empty());
}

#[test]
fn json_history_truncates_to_max() {
    let mut store = HistoryBook::new(2);
    store.add_message(1, 1, user_msg("x")).ok().unwrap();
    store.add_message(1, 1, user_msg("y")).ok().unwrap();
    store.add_message(1, 1, user_msg("z")).ok().unwrap();

    let hist = store.get_history(1, 1).ok().unwrap();
    assert_eq!(hist.len(), 2);
    assert_eq!(hist[0].content, "y");
    assert_eq!(hist[1].content, "z");
}

#[test]
fn history_with_zero_limit_keeps_nothing() {
    let mut store = HistoryBook::new(0);
    store.add_message(1, 1, user_msg("x")).ok().unwrap();
    assert!(store.get_history(1, 1).ok().unwrap().is_empty());
}

#[test]
fn history_of_one_user_leaves_others_alone() {
    let mut store = HistoryBook::new(3);
    store.add_message(1, 23, user_msg("a")).ok().unwrap();
    store.add_message(12, 3, user_msg("b")).ok().unwrap();
    store.clear_history(12, 3).ok().unwrap();
    let hist = store.get_history(1, 23).ok().unwrap();
    assert_eq!(hist.len(), 1);
    assert_eq!(hist[0].content, "a");
    assert!(store.get_history(12, 3).ok().unwrap().is_empty());
}

#[test]
fn restored_history_is_read_back() {
    let mut store = HistoryBook::new(10);
    store.restore("5_6".to_string(), vec![user_msg("old")]);
    let hist = store.get_history(5, 6).ok().unwrap();
    assert_eq!(hist.len(), 1);
    assert_eq!(hist[0].content, "old");
}

#[test]
fn user_keys() {
    assert_eq!(user_key(5, 6), "5_6");
    assert_eq!(user_key(-100123, 100), "-100123_100");
    assert_eq!(user_key(0, -1), "0_-1");
    assert_eq!(user_key(i64::MIN, i64::MAX), "-9223372036854775808_9223372036854775807");
}

#[test]
fn history_file_names() {
    assert_eq!(history_file_name("5_6"), "5_6.json");
    assert_eq!(key_of_file_name("5_6.json"), Some("5_6".to_string()));
    assert_eq!(key_of_file_name(".json"), None);
    assert_eq!(key_of_file_name("..json"), Some(".".to_string()));
    assert_eq!(key_of_file_name("a.b.json"), Some("a.b".to_string()));
    assert_eq!(key_of_file_name("notes.txt"), None);
    assert_eq!(key_of_file_name("x.JSON"), None);
}

#[test]
fn rebuilt_history_keeps_every_history_uncut() {
    let mut store = HistoryBook::new(3);
    store.add_message(1, 1, user_msg("a")).ok().unwrap();
    store.add_message(1, 1, user_msg("b")).ok().unwrap();
    store.add_message(2, 1, user_msg("c")).ok().unwrap();
    let saved = store.snapshot();
    assert_eq!(saved.len(), 2);
    let reopened = HistoryBook::from_entries(&saved, 1);
    let hist = reopened.get_history(1, 1).ok().unwrap();
    assert_eq!(hist.len(), 2);
    assert_eq!(hist[0].content, "a");
    assert_eq!(hist[1].content, "b");
    assert_eq!(reopened.get_history(2, 1).ok().unwrap()[0].content, "c");
}

#[test]
fn prefs_from_entries_later_entry_wins() {
    let entries = vec![
        ("1_2".to_string(), UserPrefs { soul: "a".to_string() }),
        ("1_2".to_string(), UserPrefs { soul: "b".to_string() }),
    ];
    let book = PrefsBook::from_entries(&entries);
    assert_eq!(book.get(1, 2).ok().unwrap().soul, "b");
    assert_eq!(book.len(), 1);
}
