use vstd::prelude::*;

use crate::register::{Pair, RegisterEntry};
use crate::status::EventStatus;

verus! {

/// A direct message that is owed to a watcher: its bot went offline or came
/// back online.
#[derive(Debug, Clone)]
pub struct Notification {
    pub user_id: String,
    pub bot_id: String,
    pub status: EventStatus,
}

impl Notification {
    /// The bot the notification is about, then the watcher it goes to.
    pub open spec fn pair(&self) -> Pair {
        (self.bot_id@, self.user_id@)
    }
}

/// A notification as the pair it is addressed to and the class it reports.
pub type NoteView = (Pair, EventStatus);

impl View for Notification {
    type V = NoteView;

    open spec fn view(&self) -> NoteView {
        (self.pair(), self.status)
    }
}

/// The views of a sequence of notifications.
pub open spec fn note_views(s: Seq<Notification>) -> Seq<NoteView> {
    s.map_values(|n: Notification| n@)
}

impl PartialEq for Notification {
    fn eq(&self, o: &Notification) -> (r: bool) {
        self.user_id == o.user_id && self.bot_id == o.bot_id && self.status == o.status
    }
}

impl vstd::std_specs::cmp::PartialEqSpecImpl for Notification {
    open spec fn obeys_eq_spec() -> bool {
        true
    }

    open spec fn eq_spec(&self, o: &Notification) -> bool {
        self.pair() == o.pair() && self.status == o.status
    }
}

/// The pairs that a sequence of notifications is addressed to.
pub open spec fn notified(s: Seq<Notification>) -> Set<Pair> {
    Set::new(|p: Pair| exists|i: int| 0 <= i < s.len() && #[trigger] s[i].pair() == p)
}

/// The notifications owed for a presence change of class `class`, given what
/// the registry returned for the bot: one for each entry, in the entries'
/// order. Nothing is owed for a change that is no transition, nor when the
/// registry could not be read.
pub fn notifications(
    class: EventStatus,
    fetched: Option<Vec<RegisterEntry>>,
) -> (r: Vec<Notification>)
    ensures
        class == EventStatus::NA ==> r@.len() == 0,
        fetched is None ==> r@.len() == 0,
        class != EventStatus::NA ==> (fetched matches Some(v) ==> {
            &&& r@.len() == v@.len()
            &&& forall|i: int|
                0 <= i < r@.len() ==> (#[trigger] r@[i]).pair() == v@[i]@ && r@[i].status
                    == class
        }),
{
    let mut r: Vec<Notification> = Vec::new();
    if class == EventStatus::NA {
        return r;
    }
    match fetched {
        None => r,
        Some(v) => {
            let mut i: usize = 0;
            while i < v.len()
                invariant
                    i <= v@.len(),
                    r@.len() == i,
                    forall|j: int|
                        0 <= j < i ==> (#[trigger] r@[j]).pair() == v@[j]@ && r@[j].status
                            == class,
                decreases v@.len() - i,
            {
                r.push(
                    Notification {
                        user_id: v[i].user_id.clone(),
                        bot_id: v[i].bot_id.clone(),
                        status: class,
                    },
                );
                i += 1;
            }
            r
        },
    }
}

/// Where a round of deliveries stands: the notifications of the round, how
/// many of them were handed out, and those whose delivery failed.
pub struct RoundView {
    pub notes: Seq<NoteView>,
    pub attempted: nat,
    pub failed: Seq<NoteView>,
}

/// The state after the outcome of the delivery handed out last is known. A
/// failure is kept and the round moves on to the next watcher either way.
pub open spec fn step(v: RoundView, delivered: bool) -> RoundView {
    if v.attempted < v.notes.len() {
        RoundView {
            notes: v.notes,
            attempted: v.attempted + 1,
            failed: if delivered {
                v.failed
            } else {
                v.failed.push(v.notes[v.attempted as int])
            },
        }
    } else {
        v
    }
}

/// The delivery a round hands out next, if any is left.
pub open spec fn pending(v: RoundView) -> Option<NoteView> {
    if v.attempted < v.notes.len() {
        Some(v.notes[v.attempted as int])
    } else {
        None
    }
}

/// The deliveries a round hands out, one before each outcome, when the
/// outcomes come in the given order.
pub open spec fn attempts(v: RoundView, outcomes: Seq<bool>) -> Seq<NoteView>
    decreases outcomes.len(),
{
    if outcomes.len() == 0 {
        Seq::empty()
    } else {
        match pending(v) {
            Some(n) => seq![n] + attempts(step(v, outcomes[0]), outcomes.drop_first()),
            None => Seq::empty(),
        }
    }
}

/// A round of deliveries, one for each notification, made one at a time by
/// the caller. A failed delivery is recorded and does not keep the round from
/// going on to the remaining watchers; nothing is retried.
pub struct FanOut {
    notes: Vec<Notification>,
    attempted: usize,
    failed: Vec<Notification>,
}

impl View for FanOut {
    type V = RoundView;

    closed spec fn view(&self) -> RoundView {
        RoundView {
            notes: note_views(self.notes@),
            attempted: self.attempted as nat,
            failed: note_views(self.failed@),
        }
    }
}

impl FanOut {
    /// A round over `notes` in which nothing was handed out yet.
    pub fn new(notes: Vec<Notification>) -> (r: FanOut)
        ensures
            r@ == (RoundView { notes: note_views(notes@), attempted: 0, failed: Seq::empty() }),
    {
        let r = FanOut { notes, attempted: 0, failed: Vec::new() };
        assert(note_views(r.failed@) =~= Seq::empty());
        r
    }

    /// The delivery to make next; `None` once every watcher was tried.
    pub fn next_delivery(&self) -> (r: Option<&Notification>)
        ensures
            r matches Some(n) ==> pending(self@) == Some(n@),
            r is None ==> pending(self@) is None,
    {
        if self.attempted < self.notes.len() {
            Some(&self.notes[self.attempted])
        } else {
            None
        }
    }

    /// Records the outcome of the delivery handed out last.
    pub fn record(&mut self, delivered: bool)
        ensures
            final(self)@ == step(old(self)@, delivered),
    {
        if self.attempted < self.notes.len() {
            if !delivered {
                let n = self.notes[self.attempted].clone_note();
                let ghost before = self.failed@;
                self.failed.push(n);
                assert(note_views(self.failed@) =~= note_views(before).push(n@));
            }
            self.attempted = self.attempted + 1;
        }
    }

    /// Whether every watcher of the round was tried.
    pub fn is_done(&self) -> (r: bool)
        ensures
            r == (pending(self@) is None),
    {
        self.attempted >= self.notes.len()
    }

    /// The notifications whose delivery failed, in the order they were tried.
    pub fn failures(&self) -> (r: &Vec<Notification>)
        ensures
            note_views(r@) == self@.failed,
    {
        &self.failed
    }
}

impl Notification {
    /// A copy of the notification.
    pub fn clone_note(&self) -> (r: Notification)
        ensures
            r@ == self@,
    {
        Notification {
            user_id: self.user_id.clone(),
            bot_id: self.bot_id.clone(),
            status: self.status,
        }
    }
}

/// However the deliveries of a round turn out, every watcher is tried once,
/// in order: a failure for one never keeps the others from their message.
pub proof fn lemma_fan_out_isolation(v: RoundView, outcomes: Seq<bool>)
    requires
        v.attempted <= v.notes.len(),
        outcomes.len() == v.notes.len() - v.attempted,
    ensures
        attempts(v, outcomes) == v.notes.subrange(v.attempted as int, v.notes.len() as int),
        pending(step_all(v, outcomes)) is None,
    decreases outcomes.len(),
{
    if outcomes.len() == 0 {
        assert(v.notes.subrange(v.attempted as int, v.notes.len() as int) =~= Seq::empty());
    } else {
        let w = step(v, outcomes[0]);
        lemma_fan_out_isolation(w, outcomes.drop_first());
        assert(attempts(v, outcomes) == seq![v.notes[v.attempted as int]] + attempts(
            w,
            outcomes.drop_first(),
        ));
        assert(v.notes.subrange(v.attempted as int, v.notes.len() as int) =~= seq![
            v.notes[v.attempted as int],
        ] + v.notes.subrange(w.attempted as int, v.notes.len() as int));
    }
}

/// The state after the given outcomes, in order.
pub open spec fn step_all(v: RoundView, outcomes: Seq<bool>) -> RoundView
    decreases outcomes.len(),
{
    if outcomes.len() == 0 {
        v
    } else {
        step_all(step(v, outcomes[0]), outcomes.drop_first())
    }
}

} // verus!
