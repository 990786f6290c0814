//! The sessions that the daemon knows, by name.

use vstd::prelude::*;

use crate::text::texts;

verus! {

struct Entry<S> {
    name: String,
    session: S,
}

/// A table of sessions with at most one session for a name.
pub struct SessionTable<S> {
    entries: Vec<Entry<S>>,
}

spec fn names_differ<S>(entries: Seq<Entry<S>>) -> bool {
    forall|i: int, j: int|
        0 <= i < j < entries.len() ==> (#[trigger] entries[i]).name@ != (#[trigger] entries[j]).name@
}

spec fn named<S>(entries: Seq<Entry<S>>, i: int, name: Seq<char>) -> bool {
    0 <= i < entries.len() && entries[i].name@ == name
}

spec fn as_map<S>(entries: Seq<Entry<S>>) -> Map<Seq<char>, S> {
    Map::new(
        |name: Seq<char>| exists|i: int| named(entries, i, name),
        |name: Seq<char>| entries[choose|i: int| named(entries, i, name)].session,
    )
}

impl<S> View for SessionTable<S> {
    type V = Map<Seq<char>, S>;

    closed spec fn view(&self) -> Map<Seq<char>, S> {
        as_map(self.entries@)
    }
}

proof fn lemma_entry<S>(entries: Seq<Entry<S>>, i: int)
    requires
        names_differ(entries),
        0 <= i < entries.len(),
    ensures
        as_map(entries).contains_key(entries[i].name@),
        as_map(entries)[entries[i].name@] == entries[i].session,
{
    let name = entries[i].name@;
    assert(named(entries, i, name));
    let k = choose|k: int| named(entries, k, name);
    assert(named(entries, k, name));
}

impl<S> SessionTable<S> {
    #[verifier::type_invariant]
    spec fn one_per_name(self) -> bool {
        names_differ(self.entries@)
    }

    /// A table without any session.
    pub fn new() -> (res: SessionTable<S>)
        ensures
            res@ == Map::<Seq<char>, S>::empty(),
    {
        let res = SessionTable { entries: Vec::new() };
        assert(res@ =~= Map::<Seq<char>, S>::empty());
        res
    }

    fn find(&self, name: &String) -> (res: Option<usize>)
        ensures
            match res {
                Some(i) => named(self.entries@, i as int, name@),
                None => !self@.contains_key(name@),
            },
    {
        let mut i: usize = 0;
        while i < self.entries.len()
            invariant
                i <= self.entries@.len(),
                forall|k: int| 0 <= k < i ==> !(#[trigger] named(self.entries@, k, name@)),
            decreases self.entries@.len() - i,
        {
            if self.entries[i].name == *name {
                return Some(i);
            }
            i = i + 1;
        }
        None
    }

    /// The session of a name.
    pub fn get(&self, name: &String) -> (res: Option<&S>)
        ensures
            match res {
                Some(session) => self@.contains_key(name@) && *session == self@[name@],
                None => !self@.contains_key(name@),
            },
    {
        proof {
            use_type_invariant(self);
        }
        match self.find(name) {
            Some(i) => {
                proof {
                    lemma_entry(self.entries@, i as int);
                }
                Some(&self.entries[i].session)
            },
            None => None,
        }
    }

    /// Enters a session under a name, in place of the one that was there, if any.
    pub fn insert(&mut self, name: String, session: S)
        ensures
            final(self)@ == old(self)@.insert(name@, session),
    {
        proof {
            use_type_invariant(&*self);
        }
        let found = self.find(&name);
        let mut entries: Vec<Entry<S>> = Vec::new();
        std::mem::swap(&mut entries, &mut self.entries);
        let ghost before = entries@;
        let entry = Entry { name, session };
        match found {
            Some(i) => {
                entries.set(i, entry);
                assert(entries@ == before.update(i as int, entry));
            },
            None => {
                proof {
                    assert forall|k: int| 0 <= k < before.len() implies before[k].name@ != name@ by {
                        lemma_entry(before, k);
                    }
                }
                entries.push(entry);
            },
        }
        self.entries = entries;
        proof {
            let after = self.entries@;
            assert forall|key: Seq<char>| #[trigger]
                as_map(after).contains_key(key) == as_map(before).insert(name@, session).contains_key(
                    key,
                ) by {
                if as_map(after).contains_key(key) {
                    let k = choose|k: int| named(after, k, key);
                    assert(named(after, k, key));
                    if key != name@ {
                        assert(named(before, k, key));
                    }
                }
                if as_map(before).contains_key(key) {
                    let k = choose|k: int| named(before, k, key);
                    assert(named(before, k, key));
                    assert(named(after, k, key));
                }
                if key == name@ {
                    match found {
                        Some(i) => {
                            assert(named(after, i as int, key));
                        },
                        None => {
                            assert(named(after, before.len() as int, key));
                        },
                    }
                }
            }
            assert forall|key: Seq<char>| as_map(after).contains_key(key) implies #[trigger] as_map(
                after,
            )[key] == as_map(before).insert(name@, session)[key] by {
                let k = choose|k: int| named(after, k, key);
                assert(named(after, k, key));
                lemma_entry(after, k);
                if key != name@ {
                    assert(named(before, k, key));
                    lemma_entry(before, k);
                }
            }
            assert(self@ =~= old(self)@.insert(name@, session));
        }
    }

    /// Takes the session of a name out of the table, if there is one.
    pub fn remove(&mut self, name: &String)
        ensures
            final(self)@ == old(self)@.remove(name@),
    {
        proof {
            use_type_invariant(&*self);
        }
        let found = self.find(name);
        match found {
            Some(i) => {
                let mut entries: Vec<Entry<S>> = Vec::new();
                std::mem::swap(&mut entries, &mut self.entries);
                let ghost before = entries@;
                entries.remove(i);
                self.entries = entries;
                proof {
                    let after = self.entries@;
                    assert(after == before.remove(i as int));
                    assert forall|key: Seq<char>| #[trigger]
                        as_map(after).contains_key(key) == as_map(before).remove(name@).contains_key(
                            key,
                        ) by {
                        if as_map(after).contains_key(key) {
                            let k = choose|k: int| named(after, k, key);
                            assert(named(after, k, key));
                            let was = if k < i { k } else { k + 1 };
                            assert(named(before, was, key));
                        }
                        if as_map(before).remove(name@).contains_key(key) {
                            let k = choose|k: int| named(before, k, key);
                            assert(named(before, k, key));
                            let is_now = if k < i { k } else { k - 1 };
                            assert(named(after, is_now, key));
                        }
                    }
                    assert forall|key: Seq<char>| as_map(after).contains_key(key) implies #[trigger] as_map(
                        after,
                    )[key] == as_map(before).remove(name@)[key] by {
                        let k = choose|k: int| named(after, k, key);
                        assert(named(after, k, key));
                        lemma_entry(after, k);
                        let was = if k < i { k } else { k + 1 };
                        lemma_entry(before, was);
                    }
                    assert(self@ =~= old(self)@.remove(name@));
                }
            },
            None => {
                assert(self@ =~= old(self)@.remove(name@));
            },
        }
    }

    /// The names of all sessions, each once. Their order means nothing.
    pub fn names(&self) -> (res: Vec<String>)
        ensures
            texts(res@).no_duplicates(),
            forall|name: Seq<char>| #[trigger]
                texts(res@).contains(name) <==> self@.contains_key(name),
    {
        proof {
            use_type_invariant(self);
        }
        let mut res: Vec<String> = Vec::new();
        let mut i: usize = 0;
        while i < self.entries.len()
            invariant
                i <= self.entries@.len(),
                res@.len() == i,
                forall|k: int| 0 <= k < i ==> (#[trigger] res@[k])@ == self.entries@[k].name@,
            decreases self.entries@.len() - i,
        {
            res.push(self.entries[i].name.clone());
            i = i + 1;
        }
        proof {
            assert forall|name: Seq<char>| #[trigger]
                texts(res@).contains(name) <==> self@.contains_key(name) by {
                if texts(res@).contains(name) {
                    let k = choose|k: int| 0 <= k < texts(res@).len() && texts(res@)[k] == name;
                    assert(res@[k]@ == name);
                    assert(named(self.entries@, k, name));
                }
                if self@.contains_key(name) {
                    let k = choose|k: int| named(self.entries@, k, name);
                    assert(named(self.entries@, k, name));
                    assert(res@[k]@ == name);
                    assert(texts(res@)[k] == name);
                }
            }
            assert forall|a: int, b: int|
                0 <= a < texts(res@).len() && 0 <= b < texts(res@).len() && a != b implies texts(
                res@,
            )[a] != texts(res@)[b] by {
                assert(res@[a]@ == self.entries@[a].name@);
                assert(res@[b]@ == self.entries@[b].name@);
            }
        }
        res
    }
}

} // verus!
