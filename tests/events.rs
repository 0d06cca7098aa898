use bot_monitor::{
    App, CreateEntry, CreateOutcome, EventStatus, ListEntriesPayload, ListOutcome, LocalRegister,
    Notification, PresenceStatus, RegisterEntry, RegisterError, RemoveEntry, RemoveOutcome,
};
fn entry(bot_id: &str, user_id: &str) -> RegisterEntry {
    RegisterEntry { bot_id: String::from(bot_id), user_id: String::from(user_id) }
}

#[test]
fn create_test_add_to_register() {
    let user_id = String::from("user_id_12345");
    let bot_id = String::from("bot_id_12345");
    let entry = CreateEntry { user_id, bot_id, version: 1 };

    let mut app = App::new(LocalRegister::new());
    assert_eq!(app.add_to_register(entry, true), CreateOutcome::Added);
    assert!(app.register.contains(&String::from("bot_id_12345"), &String::from("user_id_12345")));
}

#[test]
fn test_add_to_register_error() {
    // A store that fails an add: the reply is the failure message.
    let stored: Result<(), RegisterError> = Err(RegisterError::EntryCreationError);
    assert_eq!(CreateOutcome::from_store(stored), CreateOutcome::Failed);
}

#[test]
fn test_add_to_register_not_a_bot() {
    let entry = CreateEntry { user_id: String::new(), bot_id: String::new(), version: 0 };
    let mut app = App::new(LocalRegister::new());
    assert_eq!(app.add_to_register(entry, false), CreateOutcome::NotABot);
    assert!(!app.register.contains(&String::new(), &String::new()));
}

#[test]
fn test_list_entries_error() {
    let user_id = String::from("user_id_12345");
    let _payload = ListEntriesPayload { user_id };
    let listed: Result<Vec<RegisterEntry>, RegisterError> = Err(RegisterError::EntryFetchError);
    assert!(matches!(ListOutcome::from_store(listed), ListOutcome::Failed));
}

#[test]
fn test_list_entries_empty() {
    let user_id = String::from("user_id_12345");
    let payload = ListEntriesPayload { user_id };

    let app = App::new(LocalRegister::new());
    assert!(matches!(app.list_entries(payload), ListOutcome::Empty));
}

#[test]
fn test_list_entries_one_result() {
    let user_id = String::from("user_id_12345");
    let bot_id = String::from("bot_id_12345");
    let payload = ListEntriesPayload { user_id: user_id.clone() };
    let entry = RegisterEntry { user_id: user_id.clone(), bot_id: bot_id.clone() };
    let entries = vec![entry.clone()];

    let mut app = App::new(LocalRegister::new());
    app.register.add_entry(bot_id, user_id);
    match app.list_entries(payload) {
        ListOutcome::Entries(listed) => assert_eq!(listed, entries),
        other => panic!("unexpected reply {other:?}"),
    }
}

#[test]
fn test_list_entries_multiple_result() {
    let user_id = String::from("user_id_12345");
    let bot_id = String::from("bot_id_12345");
    let entry = RegisterEntry { user_id: user_id.clone(), bot_id: bot_id.clone() };
    let entries = vec![entry.clone(), entry.clone(), entry.clone()];

    // What a store answered is passed on as it is.
    match ListOutcome::from_store(Ok(entries.clone())) {
        ListOutcome::Entries(listed) => assert_eq!(listed, entries),
        other => panic!("unexpected reply {other:?}"),
    }
}

#[test]
fn test_remove_from_register() {
    let user_id = String::from("user_id_12345");
    let bot_id = String::from("bot_id12345");
    let entry = RemoveEntry { user_id: user_id.clone(), bot_id: bot_id.clone() };

    let mut app = App::new(LocalRegister::new());
    app.register.add_entry(bot_id.clone(), user_id.clone());
    assert_eq!(app.remove_from_register(entry), RemoveOutcome::Removed);
    assert!(!app.register.contains(&bot_id, &user_id));
}

#[test]
fn remove_from_register_error() {
    let removed: Result<(), RegisterError> = Err(RegisterError::EntryRemoveError);
    assert_eq!(RemoveOutcome::from_store(removed), RemoveOutcome::Failed);
}

#[test]
fn test_resolve_not_bot() {
    let bot_id = String::from("bot_id_12345");
    let mut app = App::new(LocalRegister::new());
    app.register.add_entry(bot_id.clone(), String::from("user_id_12345"));
    let notes = app.resolve_event(bot_id, PresenceStatus::Offline, false);
    assert!(notes.is_empty());
}

#[test]
fn test_resolve_event_offline() {
    let bot_id = String::from("bot_id_12345");
    let user_id = String::from("user_id_12345");

    let mut app = App::new(LocalRegister::new());
    app.register.add_entry(bot_id.clone(), user_id.clone());
    let notes = app.resolve_event(bot_id.clone(), PresenceStatus::Offline, true);
    assert_eq!(notes, vec![Notification { user_id, bot_id, status: EventStatus::Offline }]);
}

#[test]
fn test_resolve_event_online() {
    let bot_id = String::from("bot_id_12345");
    let user_id = String::from("user_id_12345");

    let mut app = App::new(LocalRegister::new());
    app.register.add_entry(bot_id.clone(), user_id.clone());
    let notes = app.resolve_event(bot_id.clone(), PresenceStatus::Online, true);
    assert_eq!(notes, vec![Notification { user_id, bot_id, status: EventStatus::Online }]);
}

#[test]
fn test_resolve_event_na() {
    let bot_id = String::from("bot_id_12345");
    let user_id = String::from("user_id_12345");

    let mut app = App::new(LocalRegister::new());
    app.register.add_entry(bot_id.clone(), user_id.clone());
    for status in [PresenceStatus::Idle, PresenceStatus::DoNotDisturb, PresenceStatus::Other] {
        let notes = app.resolve_event(bot_id.clone(), status, true);
        assert!(notes.is_empty());
    }
}

#[test]
fn resolve_event_store_unreachable() {
    // A store that could not be read owes nobody a message.
    assert!(bot_monitor::notifications(EventStatus::Offline, None).is_empty());
}

#[test]
fn logic_test_add_to_register() {
    let mut app = App::new(LocalRegister::new());
    let outcome = app.add_to_register(
        CreateEntry { bot_id: String::new(), user_id: String::new(), version: 0 },
        true,
    );
    assert_eq!(outcome, CreateOutcome::Added);
    assert_eq!(app.register.fetch_by_subject(&String::new()), vec![entry("", "")]);
}
