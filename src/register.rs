use vstd::prelude::*;

verus! {

/// A registration as a pair of views: the watched bot, then its watcher.
pub type Pair = (Seq<char>, Seq<char>);

/// One registration: `user_id` is told when the bot `bot_id` goes offline or
/// comes back online.
#[derive(Debug, Clone)]
pub struct RegisterEntry {
    pub bot_id: String,
    pub user_id: String,
}

impl View for RegisterEntry {
    type V = Pair;

    open spec fn view(&self) -> Pair {
        (self.bot_id@, self.user_id@)
    }
}

impl PartialEq for RegisterEntry {
    fn eq(&self, o: &RegisterEntry) -> (r: bool) {
        self.bot_id == o.bot_id && self.user_id == o.user_id
    }
}

impl vstd::std_specs::cmp::PartialEqSpecImpl for RegisterEntry {
    open spec fn obeys_eq_spec() -> bool {
        true
    }

    open spec fn eq_spec(&self, o: &RegisterEntry) -> bool {
        self@ == o@
    }
}

/// A request to register a watcher for a bot.
#[derive(Debug, Clone)]
pub struct CreateEntry {
    pub user_id: String,
    pub bot_id: String,
    /// The version of the record layout; stores may keep it beside the pair.
    pub version: usize,
}

impl CreateEntry {
    /// The bot, then the watcher.
    pub open spec fn pair(&self) -> Pair {
        (self.bot_id@, self.user_id@)
    }
}

/// A request to drop a watcher's registration for a bot.
#[derive(Debug, Clone)]
pub struct RemoveEntry {
    pub user_id: String,
    pub bot_id: String,
}

impl RemoveEntry {
    /// The bot, then the watcher.
    pub open spec fn pair(&self) -> Pair {
        (self.bot_id@, self.user_id@)
    }
}

/// A request for every registration of one watcher.
#[derive(Debug, Clone)]
pub struct ListEntriesPayload {
    pub user_id: String,
}

/// The kinds of store failure. Callers branch on the kind only.
#[derive(Debug, Clone, Copy, PartialEq, Eq, Structural)]
pub enum RegisterError {
    EntryCreationError,
    EntryFetchError,
    EntryRemoveError,
}

impl RegisterError {
    /// The text of the error, for logs.
    pub fn message(&self) -> &'static str {
        match self {
            RegisterError::EntryCreationError => "Could not create register entry",
            RegisterError::EntryFetchError => "Could not fetch register entry",
            RegisterError::EntryRemoveError => "Could not remove register entry",
        }
    }
}

/// The pairs that a sequence of entries holds.
pub open spec fn views_set(s: Seq<RegisterEntry>) -> Set<Pair> {
    Set::new(|p: Pair| exists|i: int| 0 <= i < s.len() && #[trigger] s[i]@ == p)
}

/// No pair stands twice in a sequence of entries.
pub open spec fn distinct(s: Seq<RegisterEntry>) -> bool {
    forall|i: int, j: int| 0 <= i < j < s.len() ==> #[trigger] s[i]@ != #[trigger] s[j]@
}

/// Adding an entry at the end adds its pair.
pub proof fn lemma_views_set_push(s: Seq<RegisterEntry>, x: RegisterEntry)
    ensures
        views_set(s.push(x)) == views_set(s).insert(x@),
{
    let t = s.push(x);
    assert forall|p: Pair| views_set(t).contains(p) <==> views_set(s).insert(x@).contains(p) by {
        if views_set(t).contains(p) {
            let i = choose|i: int| 0 <= i < t.len() && #[trigger] t[i]@ == p;
            if i < s.len() {
                assert(s[i]@ == p);
            }
        }
        if views_set(s).contains(p) {
            let i = choose|i: int| 0 <= i < s.len() && #[trigger] s[i]@ == p;
            assert(t[i]@ == p);
        }
        if p == x@ {
            assert(t[s.len() as int]@ == p);
        }
    }
    assert(views_set(t) =~= views_set(s).insert(x@));
}

/// The registrations of one bot.
pub open spec fn of_subject(m: Set<Pair>, bot: Seq<char>) -> Set<Pair> {
    m.filter(|p: Pair| p.0 == bot)
}

/// The registrations of one watcher.
pub open spec fn of_watcher(m: Set<Pair>, user: Seq<char>) -> Set<Pair> {
    m.filter(|p: Pair| p.1 == user)
}

/// A registry of watcher and bot pairs. A pair is held at most once: adding
/// a pair that is there already leaves the registry as it was, and removing a
/// pair that is not there is no error.
pub trait Register {
    /// The pairs the registry holds.
    spec fn entries(&self) -> Set<Pair>;

    /// Whether every operation of the registry succeeds: true of a registry
    /// that no outside failure can reach, such as one held in memory.
    spec fn infallible(&self) -> bool;

    /// Every registration of `bot_id`, in no particular order. `None` says
    /// that the store could not be read, which is not the same as a bot that
    /// nobody watches.
    fn fetch(&self, bot_id: String) -> (r: Option<Vec<RegisterEntry>>)
        ensures
            self.infallible() ==> r is Some,
            r matches Some(v) ==> views_set(v@) == of_subject(self.entries(), bot_id@)
                && distinct(v@),
    ;

    /// Registers a pair.
    fn add(&mut self, entry: CreateEntry) -> (r: Result<(), RegisterError>)
        ensures
            old(self).infallible() ==> r is Ok && final(self).infallible(),
            r is Ok ==> final(self).entries() == old(self).entries().insert(entry.pair()),
            r matches Err(e) ==> e == RegisterError::EntryCreationError,
    ;

    /// Drops a pair if it is held.
    fn remove(&mut self, entry: RemoveEntry) -> (r: Result<(), RegisterError>)
        ensures
            old(self).infallible() ==> r is Ok && final(self).infallible(),
            r is Ok ==> final(self).entries() == old(self).entries().remove(entry.pair()),
            r matches Err(e) ==> e == RegisterError::EntryRemoveError,
    ;

    /// Every registration of one watcher, in no particular order.
    fn list(&self, entry: ListEntriesPayload) -> (r: Result<Vec<RegisterEntry>, RegisterError>)
        ensures
            self.infallible() ==> r is Ok,
            r matches Ok(v) ==> views_set(v@) == of_watcher(self.entries(), entry.user_id@)
                && distinct(v@),
            r matches Err(e) ==> e == RegisterError::EntryFetchError,
    ;
}

/// The entries of one bot, one for each of the given watchers, in their order.
pub fn entries_for_subject(bot_id: &String, user_ids: &Vec<String>) -> (r: Vec<RegisterEntry>)
    ensures
        r@.len() == user_ids@.len(),
        forall|i: int| 0 <= i < r@.len() ==> #[trigger] r@[i]@ == (bot_id@, user_ids@[i]@),
{
    let mut r: Vec<RegisterEntry> = Vec::new();
    let mut i: usize = 0;
    while i < user_ids.len()
        invariant
            i <= user_ids@.len(),
            r@.len() == i,
            forall|j: int| 0 <= j < i ==> #[trigger] r@[j]@ == (bot_id@, user_ids@[j]@),
        decreases user_ids@.len() - i,
    {
        r.push(RegisterEntry { bot_id: bot_id.clone(), user_id: user_ids[i].clone() });
        i += 1;
    }
    r
}

/// The entries of one watcher, one for each of the given bots, in their order.
pub fn entries_for_watcher(user_id: &String, bot_ids: &Vec<String>) -> (r: Vec<RegisterEntry>)
    ensures
        r@.len() == bot_ids@.len(),
        forall|i: int| 0 <= i < r@.len() ==> #[trigger] r@[i]@ == (bot_ids@[i]@, user_id@),
{
    let mut r: Vec<RegisterEntry> = Vec::new();
    let mut i: usize = 0;
    while i < bot_ids.len()
        invariant
            i <= bot_ids@.len(),
            r@.len() == i,
            forall|j: int| 0 <= j < i ==> #[trigger] r@[j]@ == (bot_ids@[j]@, user_id@),
        decreases bot_ids@.len() - i,
    {
        r.push(RegisterEntry { bot_id: bot_ids[i].clone(), user_id: user_id.clone() });
        i += 1;
    }
    r
}

/// Removing a pair leaves a registry without it, and removing it again
/// changes nothing: both removals are the same.
pub proof fn lemma_remove_idempotent(entries: Set<Pair>, bot: Seq<char>, user: Seq<char>)
    ensures
        !entries.remove((bot, user)).contains((bot, user)),
        entries.remove((bot, user)).remove((bot, user)) == entries.remove((bot, user)),
{
    assert(entries.remove((bot, user)).remove((bot, user)) =~= entries.remove((bot, user)));
}

/// After a pair is added, a fetch of its bot and a listing of its watcher
/// both return an entry for the pair, whatever the registry held before.
pub proof fn lemma_add_then_fetch(
    entries: Set<Pair>,
    bot: Seq<char>,
    user: Seq<char>,
    fetched: Seq<RegisterEntry>,
    listed: Seq<RegisterEntry>,
)
    requires
        views_set(fetched) == of_subject(entries.insert((bot, user)), bot),
        views_set(listed) == of_watcher(entries.insert((bot, user)), user),
    ensures
        exists|i: int| 0 <= i < fetched.len() && #[trigger] fetched[i]@ == (bot, user),
        exists|i: int| 0 <= i < listed.len() && #[trigger] listed[i]@ == (bot, user),
{
    assert(of_subject(entries.insert((bot, user)), bot).contains((bot, user)));
    assert(views_set(fetched).contains((bot, user)));
    assert(of_watcher(entries.insert((bot, user)), user).contains((bot, user)));
    assert(views_set(listed).contains((bot, user)));
}

/// A fetch of a bot that nobody watches returns no entry.
pub proof fn lemma_unwatched_fetch_empty(entries: Set<Pair>, bot: Seq<char>, fetched: Seq<RegisterEntry>)
    requires
        views_set(fetched) == of_subject(entries, bot),
        forall|user: Seq<char>| !entries.contains((bot, user)),
    ensures
        fetched.len() == 0,
{
    if fetched.len() > 0 {
        assert(views_set(fetched).contains(fetched[0]@));
        assert(entries.contains((bot, fetched[0]@.1)));
    }
}

} // verus!
