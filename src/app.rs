use vstd::prelude::*;

use crate::notify::{notifications, notified, Notification};
use crate::register::{
    distinct, of_subject, of_watcher, views_set, CreateEntry, ListEntriesPayload, Pair, Register,
    RegisterEntry, RegisterError, RemoveEntry,
};
use crate::status::{classify, spec_classify, EventStatus, PresenceStatus};

verus! {

/// The reply owed to a request to watch a bot.
#[derive(Debug, Clone, Copy, PartialEq, Eq, Structural)]
pub enum CreateOutcome {
    /// The account is no bot: people are not watched.
    NotABot,
    /// The registration is held.
    Added,
    /// The store failed.
    Failed,
}

impl CreateOutcome {
    /// The reply to a bot's registration, from what the store answered.
    pub fn from_store(stored: Result<(), RegisterError>) -> (r: CreateOutcome)
        ensures
            r == (if stored is Ok {
                CreateOutcome::Added
            } else {
                CreateOutcome::Failed
            }),
    {
        match stored {
            Ok(()) => CreateOutcome::Added,
            Err(_) => CreateOutcome::Failed,
        }
    }
}

/// The reply owed to a request to stop watching a bot.
#[derive(Debug, Clone, Copy, PartialEq, Eq, Structural)]
pub enum RemoveOutcome {
    /// The registration is gone, or was never there.
    Removed,
    /// The store failed.
    Failed,
}

impl RemoveOutcome {
    /// The reply to a removal, from what the store answered.
    pub fn from_store(removed: Result<(), RegisterError>) -> (r: RemoveOutcome)
        ensures
            r == (if removed is Ok {
                RemoveOutcome::Removed
            } else {
                RemoveOutcome::Failed
            }),
    {
        match removed {
            Ok(()) => RemoveOutcome::Removed,
            Err(_) => RemoveOutcome::Failed,
        }
    }
}

/// The reply owed to a request for a watcher's registrations.
#[derive(Debug, Clone)]
pub enum ListOutcome {
    /// The watcher's registrations; never empty.
    Entries(Vec<RegisterEntry>),
    /// The watcher watches nothing.
    Empty,
    /// The store failed.
    Failed,
}

impl ListOutcome {
    /// The reply to a listing, from what the store answered.
    pub fn from_store(listed: Result<Vec<RegisterEntry>, RegisterError>) -> (r: ListOutcome)
        ensures
            listed is Err ==> r is Failed,
            listed matches Ok(v) ==> (if v@.len() == 0 {
                r is Empty
            } else {
                r matches ListOutcome::Entries(w) && w@ == v@
            }),
    {
        match listed {
            Err(_) => ListOutcome::Failed,
            Ok(v) => {
                if v.len() == 0 {
                    ListOutcome::Empty
                } else {
                    ListOutcome::Entries(v)
                }
            },
        }
    }
}

/// No two notifications of a sequence go to the same pair.
pub open spec fn distinct_notes(s: Seq<Notification>) -> bool {
    forall|i: int, j: int|
        0 <= i < j < s.len() ==> (#[trigger] s[i]).pair() != (#[trigger] s[j]).pair()
}

/// The monitor: presence changes and commands, over a registry.
pub struct App<R: Register> {
    pub register: R,
}

impl<R: Register> App<R> {
    /// A monitor over `register`.
    pub fn new(register: R) -> (r: Self)
        ensures
            r.register == register,
    {
        App { register }
    }

    /// The notifications owed for a presence change of the account `bot_id`.
    /// A change that is no transition ends here and the registry is not read.
    /// Otherwise every watcher of the bot gets one, unless the registry could
    /// not be read: then nobody does.
    pub fn resolve_event(
        &self,
        bot_id: String,
        status: PresenceStatus,
        is_bot: bool,
    ) -> (r: Vec<Notification>)
        ensures
            spec_classify(status, is_bot) == EventStatus::NA ==> r@.len() == 0,
            forall|i: int|
                0 <= i < r@.len() ==> (#[trigger] r@[i]).status == spec_classify(status, is_bot),
            r@.len() == 0 || notified(r@) == of_subject(self.register.entries(), bot_id@),
            self.register.infallible() && spec_classify(status, is_bot) != EventStatus::NA
                ==> notified(r@) == of_subject(self.register.entries(), bot_id@),
            distinct_notes(r@),
            (forall|user: Seq<char>| !self.register.entries().contains((bot_id@, user)))
                ==> r@.len() == 0,
    {
        let class = classify(status, is_bot);
        if class == EventStatus::NA {
            return Vec::new();
        }
        let ghost bot = bot_id@;
        let fetched = self.register.fetch(bot_id);
        let ghost got = fetched;
        let r = notifications(class, fetched);
        proof {
            if let Some(v) = got {
                assert(notified(r@) =~= views_set(v@)) by {
                    assert forall|p| notified(r@).contains(p) implies views_set(v@).contains(p) by {
                        let i = choose|i: int| 0 <= i < r@.len() && #[trigger] r@[i].pair() == p;
                        assert(v@[i]@ == p);
                    }
                    assert forall|p| views_set(v@).contains(p) implies notified(r@).contains(p) by {
                        let i = choose|i: int| 0 <= i < v@.len() && #[trigger] v@[i]@ == p;
                        assert(r@[i].pair() == p);
                    }
                }
                assert forall|i: int, j: int| 0 <= i < j < r@.len() implies (#[trigger] r@[i]).pair()
                    != (#[trigger] r@[j]).pair() by {
                    assert(v@[i]@ != v@[j]@);
                }
                if r@.len() > 0 {
                    assert(notified(r@).contains(r@[0].pair()));
                    assert(self.register.entries().contains((bot, r@[0].pair().1)));
                }
            }
        }
        r
    }

    /// Registers `entry`, provided its bot is an automated account; a person
    /// is refused before the store is asked.
    pub fn add_to_register(&mut self, entry: CreateEntry, is_bot: bool) -> (r: CreateOutcome)
        ensures
            !is_bot ==> r == CreateOutcome::NotABot && *final(self) == *old(self),
            is_bot ==> r != CreateOutcome::NotABot,
            is_bot && old(self).register.infallible() ==> r == CreateOutcome::Added,
            r == CreateOutcome::Added ==> final(self).register.entries() == old(
                self,
            ).register.entries().insert(entry.pair()),
    {
        if !is_bot {
            return CreateOutcome::NotABot;
        }
        let stored = self.register.add(entry);
        CreateOutcome::from_store(stored)
    }

    /// Drops the registration `entry`; one that is not held is no error.
    pub fn remove_from_register(&mut self, entry: RemoveEntry) -> (r: RemoveOutcome)
        ensures
            old(self).register.infallible() ==> r == RemoveOutcome::Removed,
            r == RemoveOutcome::Removed ==> final(self).register.entries() == old(
                self,
            ).register.entries().remove(entry.pair()),
    {
        let removed = self.register.remove(entry);
        RemoveOutcome::from_store(removed)
    }

    /// The registrations of the watcher named in `payload`.
    pub fn list_entries(&self, payload: ListEntriesPayload) -> (r: ListOutcome)
        ensures
            self.register.infallible() ==> !(r is Failed),
            r matches ListOutcome::Entries(v) ==> views_set(v@) == of_watcher(
                self.register.entries(),
                payload.user_id@,
            ) && v@.len() > 0 && distinct(v@),
            r is Empty ==> of_watcher(self.register.entries(), payload.user_id@)
                == Set::<Pair>::empty(),
    {
        let listed = self.register.list(payload);
        let ghost got = listed;
        let r = ListOutcome::from_store(listed);
        proof {
            if let Ok(v) = got {
                if v@.len() == 0 {
                    assert(views_set(v@) =~= Set::<Pair>::empty());
                }
            }
        }
        r
    }
}

} // verus!
