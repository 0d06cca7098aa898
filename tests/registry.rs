use bot_monitor::{
    entries_for_subject, entries_for_watcher, CreateEntry, ListEntriesPayload, LocalRegister,
    Register, RegisterEntry, RegisterError, RemoveEntry,
};

fn entry(bot_id: &str, user_id: &str) -> RegisterEntry {
    RegisterEntry { bot_id: String::from(bot_id), user_id: String::from(user_id) }
}

fn sorted(mut v: Vec<RegisterEntry>) -> Vec<(String, String)> {
    let mut out: Vec<(String, String)> = v.drain(..).map(|e| (e.bot_id, e.user_id)).collect();
    out.sort();
    out
}

#[test]
fn empty_register_fetches_nothing() {
    let reg = LocalRegister::new();
    assert!(reg.fetch_by_subject(&String::from("bot")).is_empty());
    assert!(reg.fetch_by_watcher(&String::from("user")).is_empty());
    assert!(!reg.contains(&String::from("bot"), &String::from("user")));
}

#[test]
fn fetch_unregistered_subject_is_empty_not_error() {
    let mut reg = LocalRegister::new();
    reg.add_entry(String::from("bot_1"), String::from("user_1"));
    assert_eq!(reg.fetch(String::from("bot_2")), Some(Vec::new()));
}

#[test]
fn add_then_fetch_round_trip() {
    let mut reg = LocalRegister::new();
    let added = reg.add(CreateEntry {
        bot_id: String::from("s"),
        user_id: String::from("w"),
        version: 0,
    });
    assert!(added.is_ok());
    assert!(reg.fetch(String::from("s")).unwrap().contains(&entry("s", "w")));
    let listed = reg.list(ListEntriesPayload { user_id: String::from("w") }).unwrap();
    assert!(listed.contains(&entry("s", "w")));
}

#[test]
fn duplicate_add_is_idempotent() {
    let mut reg = LocalRegister::new();
    reg.add_entry(String::from("bot"), String::from("user"));
    reg.add_entry(String::from("bot"), String::from("user"));
    assert_eq!(reg.fetch_by_subject(&String::from("bot")), vec![entry("bot", "user")]);
    assert_eq!(reg.fetch_by_watcher(&String::from("user")), vec![entry("bot", "user")]);
}

#[test]
fn remove_twice_succeeds_both_times() {
    let mut reg = LocalRegister::new();
    reg.add_entry(String::from("s"), String::from("w"));
    let first = reg.remove(RemoveEntry { bot_id: String::from("s"), user_id: String::from("w") });
    assert!(first.is_ok());
    assert!(!reg.contains(&String::from("s"), &String::from("w")));
    let second = reg.remove(RemoveEntry { bot_id: String::from("s"), user_id: String::from("w") });
    assert!(second.is_ok());
    assert!(!reg.contains(&String::from("s"), &String::from("w")));
    assert!(reg.fetch_by_subject(&String::from("s")).is_empty());
}

#[test]
fn remove_keeps_other_pairs() {
    let mut reg = LocalRegister::new();
    reg.add_entry(String::from("b1"), String::from("u1"));
    reg.add_entry(String::from("b1"), String::from("u2"));
    reg.add_entry(String::from("b2"), String::from("u1"));
    reg.remove_entry(&String::from("b1"), &String::from("u1"));
    assert_eq!(sorted(reg.fetch_by_subject(&String::from("b1"))), sorted(vec![entry("b1", "u2")]));
    assert_eq!(sorted(reg.fetch_by_watcher(&String::from("u1"))), sorted(vec![entry("b2", "u1")]));
}

#[test]
fn remove_absent_pair_is_no_error() {
    let mut reg = LocalRegister::new();
    reg.add_entry(String::from("b"), String::from("u"));
    let removed = reg.remove(RemoveEntry { bot_id: String::from("b"), user_id: String::from("x") });
    assert!(removed.is_ok());
    assert!(reg.contains(&String::from("b"), &String::from("u")));
}

#[test]
fn fetch_returns_every_watcher_of_a_bot() {
    let mut reg = LocalRegister::new();
    reg.add_entry(String::from("bot"), String::from("w1"));
    reg.add_entry(String::from("other"), String::from("w1"));
    reg.add_entry(String::from("bot"), String::from("w2"));
    reg.add_entry(String::from("bot"), String::from("w3"));
    assert_eq!(
        sorted(reg.fetch_by_subject(&String::from("bot"))),
        sorted(vec![entry("bot", "w1"), entry("bot", "w2"), entry("bot", "w3")])
    );
    assert_eq!(
        sorted(reg.list(ListEntriesPayload { user_id: String::from("w1") }).unwrap()),
        sorted(vec![entry("bot", "w1"), entry("other", "w1")])
    );
}

#[test]
fn entries_built_from_watcher_ids() {
    let watchers = vec![String::from("u1"), String::from("u2")];
    let built = entries_for_subject(&String::from("b"), &watchers);
    assert_eq!(built, vec![entry("b", "u1"), entry("b", "u2")]);
    let bots = vec![String::from("b1"), String::from("b2")];
    let built = entries_for_watcher(&String::from("u"), &bots);
    assert_eq!(built, vec![entry("b1", "u"), entry("b2", "u")]);
    assert!(entries_for_subject(&String::from("b"), &Vec::new()).is_empty());
}

#[test]
fn error_messages() {
    assert_eq!(RegisterError::EntryCreationError.message(), "Could not create register entry");
    assert_eq!(RegisterError::EntryFetchError.message(), "Could not fetch register entry");
    assert_eq!(RegisterError::EntryRemoveError.message(), "Could not remove register entry");
}

#[test]
fn entries_compare_by_both_ids() {
    assert_eq!(entry("a", "b"), entry("a", "b"));
    assert_ne!(entry("a", "b"), entry("b", "a"));
    assert_ne!(entry("a", "b"), entry("a", "c"));
}
