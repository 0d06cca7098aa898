use vstd::prelude::*;

use crate::register::{
    distinct, lemma_views_set_push, of_subject, of_watcher, views_set, CreateEntry,
    ListEntriesPayload, Pair, Register, RegisterEntry, RegisterError, RemoveEntry,
};

verus! {

/// A registry held in memory. Every pair stands in it at most once.
pub struct LocalRegister {
    pairs: Vec<RegisterEntry>,
}

proof fn lemma_take_succ(s: Seq<RegisterEntry>, i: int)
    requires
        0 <= i < s.len(),
    ensures
        s.take(i + 1) == s.take(i).push(s[i]),
{
    assert(s.take(i + 1) =~= s.take(i).push(s[i]));
}

impl LocalRegister {
    #[verifier::type_invariant]
    closed spec fn unique(&self) -> bool {
        distinct(self.pairs@)
    }

    /// An empty registry.
    pub fn new() -> (r: LocalRegister)
        ensures
            r.entries() == Set::<Pair>::empty(),
    {
        let r = LocalRegister { pairs: Vec::new() };
        assert(views_set(r.pairs@) =~= Set::<Pair>::empty());
        r
    }

    /// Whether the registry holds the pair of `bot_id` and `user_id`.
    pub fn contains(&self, bot_id: &String, user_id: &String) -> (r: bool)
        ensures
            r == self.entries().contains((bot_id@, user_id@)),
    {
        let mut i: usize = 0;
        while i < self.pairs.len()
            invariant
                i <= self.pairs@.len(),
                forall|j: int| 0 <= j < i ==> #[trigger] self.pairs@[j]@ != (bot_id@, user_id@),
            decreases self.pairs@.len() - i,
        {
            if self.pairs[i].bot_id == *bot_id && self.pairs[i].user_id == *user_id {
                assert(self.pairs@[i as int]@ == (bot_id@, user_id@));
                return true;
            }
            i += 1;
        }
        false
    }

    /// Every registration of one bot; an empty list when nobody watches it.
    pub fn fetch_by_subject(&self, bot_id: &String) -> (r: Vec<RegisterEntry>)
        ensures
            views_set(r@) == of_subject(self.entries(), bot_id@),
            distinct(r@),
    {
        proof {
            use_type_invariant(self);
        }
        let mut r: Vec<RegisterEntry> = Vec::new();
        let mut i: usize = 0;
        proof {
            assert(views_set(r@) =~= of_subject(views_set(self.pairs@.take(0)), bot_id@));
        }
        while i < self.pairs.len()
            invariant
                i <= self.pairs@.len(),
                distinct(self.pairs@),
                views_set(r@) == of_subject(views_set(self.pairs@.take(i as int)), bot_id@),
                distinct(r@),
            decreases self.pairs@.len() - i,
        {
            let ghost before = r@;
            let ghost seen = self.pairs@.take(i as int);
            proof {
                lemma_take_succ(self.pairs@, i as int);
                lemma_views_set_push(seen, self.pairs@[i as int]);
            }
            if self.pairs[i].bot_id == *bot_id {
                let e = RegisterEntry {
                    bot_id: self.pairs[i].bot_id.clone(),
                    user_id: self.pairs[i].user_id.clone(),
                };
                r.push(e);
                proof {
                    lemma_views_set_push(before, e);
                    self.lemma_fresh(i as int);
                    assert forall|k: int| 0 <= k < before.len() implies before[k]@ != e@ by {
                        assert(views_set(before).contains(before[k]@));
                    }
                    assert(r@ == before.push(e));
                }
            }
            assert(views_set(r@) =~= of_subject(views_set(self.pairs@.take(i + 1)), bot_id@));
            i += 1;
        }
        assert(self.pairs@.take(self.pairs@.len() as int) =~= self.pairs@);
        r
    }

    /// Every registration of one watcher; an empty list when there is none.
    pub fn fetch_by_watcher(&self, user_id: &String) -> (r: Vec<RegisterEntry>)
        ensures
            views_set(r@) == of_watcher(self.entries(), user_id@),
            distinct(r@),
    {
        proof {
            use_type_invariant(self);
        }
        let mut r: Vec<RegisterEntry> = Vec::new();
        let mut i: usize = 0;
        proof {
            assert(views_set(r@) =~= of_watcher(views_set(self.pairs@.take(0)), user_id@));
        }
        while i < self.pairs.len()
            invariant
                i <= self.pairs@.len(),
                distinct(self.pairs@),
                views_set(r@) == of_watcher(views_set(self.pairs@.take(i as int)), user_id@),
                distinct(r@),
            decreases self.pairs@.len() - i,
        {
            let ghost before = r@;
            let ghost seen = self.pairs@.take(i as int);
            proof {
                lemma_take_succ(self.pairs@, i as int);
                lemma_views_set_push(seen, self.pairs@[i as int]);
            }
            if self.pairs[i].user_id == *user_id {
                let e = RegisterEntry {
                    bot_id: self.pairs[i].bot_id.clone(),
                    user_id: self.pairs[i].user_id.clone(),
                };
                r.push(e);
                proof {
                    lemma_views_set_push(before, e);
                    self.lemma_fresh(i as int);
                    assert forall|k: int| 0 <= k < before.len() implies before[k]@ != e@ by {
                        assert(views_set(before).contains(before[k]@));
                    }
                    assert(r@ == before.push(e));
                }
            }
            assert(views_set(r@) =~= of_watcher(views_set(self.pairs@.take(i + 1)), user_id@));
            i += 1;
        }
        assert(self.pairs@.take(self.pairs@.len() as int) =~= self.pairs@);
        r
    }

    /// Registers `user_id` as a watcher of `bot_id`. A pair that is held
    /// already stays as it is: adding is idempotent.
    pub fn add_entry(&mut self, bot_id: String, user_id: String)
        ensures
            final(self).entries() == old(self).entries().insert((bot_id@, user_id@)),
    {
        proof {
            use_type_invariant(&*self);
        }
        if self.contains(&bot_id, &user_id) {
            assert(self.entries().insert((bot_id@, user_id@)) =~= self.entries());
            return;
        }
        let e = RegisterEntry { bot_id, user_id };
        let mut pairs: Vec<RegisterEntry> = Vec::new();
        std::mem::swap(&mut pairs, &mut self.pairs);
        let ghost before = pairs@;
        pairs.push(e);
        proof {
            lemma_views_set_push(before, e);
            assert forall|k: int| 0 <= k < before.len() implies before[k]@ != e@ by {
                assert(views_set(before).contains(before[k]@));
            }
            assert(pairs@ == before.push(e));
        }
        self.pairs = pairs;
    }

    /// Drops the pair of `bot_id` and `user_id`. Dropping a pair that is not
    /// held changes nothing.
    pub fn remove_entry(&mut self, bot_id: &String, user_id: &String)
        ensures
            final(self).entries() == old(self).entries().remove((bot_id@, user_id@)),
    {
        proof {
            use_type_invariant(&*self);
        }
        let ghost gone: Pair = (bot_id@, user_id@);
        let mut kept: Vec<RegisterEntry> = Vec::new();
        let mut i: usize = 0;
        proof {
            assert(views_set(kept@) =~= views_set(self.pairs@.take(0)).remove(gone));
        }
        while i < self.pairs.len()
            invariant
                i <= self.pairs@.len(),
                gone == (bot_id@, user_id@),
                distinct(self.pairs@),
                views_set(kept@) == views_set(self.pairs@.take(i as int)).remove(gone),
                distinct(kept@),
            decreases self.pairs@.len() - i,
        {
            let ghost before = kept@;
            let ghost seen = self.pairs@.take(i as int);
            proof {
                lemma_take_succ(self.pairs@, i as int);
                lemma_views_set_push(seen, self.pairs@[i as int]);
            }
            let same_bot = self.pairs[i].bot_id == *bot_id;
            let same_user = self.pairs[i].user_id == *user_id;
            if !(same_bot && same_user) {
                let e = RegisterEntry {
                    bot_id: self.pairs[i].bot_id.clone(),
                    user_id: self.pairs[i].user_id.clone(),
                };
                kept.push(e);
                proof {
                    lemma_views_set_push(before, e);
                    self.lemma_fresh(i as int);
                    assert forall|k: int| 0 <= k < before.len() implies before[k]@ != e@ by {
                        assert(views_set(before).contains(before[k]@));
                    }
                    assert(kept@ == before.push(e));
                }
            } else {
                assert(self.pairs@[i as int]@ == gone);
            }
            assert(views_set(kept@) =~= views_set(self.pairs@.take(i + 1)).remove(gone));
            i += 1;
        }
        assert(self.pairs@.take(self.pairs@.len() as int) =~= self.pairs@);
        self.pairs = kept;
    }

    /// The pair at `i` stands nowhere before `i`.
    proof fn lemma_fresh(&self, i: int)
        requires
            distinct(self.pairs@),
            0 <= i < self.pairs@.len(),
        ensures
            !views_set(self.pairs@.take(i)).contains(self.pairs@[i]@),
    {
        let seen = self.pairs@.take(i);
        if views_set(seen).contains(self.pairs@[i]@) {
            let j = choose|j: int| 0 <= j < seen.len() && #[trigger] seen[j]@ == self.pairs@[i]@;
            assert(self.pairs@[j]@ == self.pairs@[i]@);
        }
    }
}

impl Register for LocalRegister {
    closed spec fn entries(&self) -> Set<Pair> {
        views_set(self.pairs@)
    }

    open spec fn infallible(&self) -> bool {
        true
    }

    fn fetch(&self, bot_id: String) -> (r: Option<Vec<RegisterEntry>>)
        ensures
            r is Some,
    {
        Some(self.fetch_by_subject(&bot_id))
    }

    fn add(&mut self, entry: CreateEntry) -> (r: Result<(), RegisterError>)
        ensures
            r is Ok,
    {
        self.add_entry(entry.bot_id, entry.user_id);
        Ok(())
    }

    fn remove(&mut self, entry: RemoveEntry) -> (r: Result<(), RegisterError>)
        ensures
            r is Ok,
    {
        self.remove_entry(&entry.bot_id, &entry.user_id);
        Ok(())
    }

    fn list(&self, entry: ListEntriesPayload) -> (r: Result<Vec<RegisterEntry>, RegisterError>)
        ensures
            r is Ok,
    {
        Ok(self.fetch_by_watcher(&entry.user_id))
    }
}

} // verus!
