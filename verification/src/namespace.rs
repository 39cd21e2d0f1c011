//! The named-key namespace: a directory from names to references.

use vstd::prelude::*;
use crate::assoc::{as_map, distinct_names, lemma_absent, lemma_empty, lemma_found, lemma_push, lemma_update};
use crate::handle::{Key, KeyView};

verus! {

struct NamedKey {
    name: String,
    key: Key,
}

/// A directory from names to references, with each name bound at most once.
pub struct Namespace {
    entries: Vec<NamedKey>,
}

impl View for Namespace {
    type V = Map<Seq<char>, KeyView>;

    closed spec fn view(&self) -> Map<Seq<char>, KeyView> {
        as_map(self.pairs())
    }
}

impl Namespace {
    spec fn pairs(&self) -> Seq<(Seq<char>, KeyView)> {
        Seq::new(self.entries@.len(), |i: int| (self.entries@[i].name@, self.entries@[i].key@))
    }

    /// No name is bound twice.
    pub closed spec fn wf(&self) -> bool {
        distinct_names(self.pairs())
    }

    /// The namespace that binds no name.
    pub fn new() -> (keys: Namespace)
        ensures
            keys.wf(),
            keys@ == Map::<Seq<char>, KeyView>::empty(),
    {
        let keys = Namespace { entries: Vec::new() };
        proof {
            lemma_empty(keys.pairs());
        }
        keys
    }

    fn find(&self, name: &String) -> (place: Option<usize>)
        requires
            self.wf(),
        ensures
            match place {
                Some(i) => i < self.entries@.len() && self.entries@[i as int].name@ == name@,
                None => !self@.contains_key(name@),
            },
    {
        let mut i: usize = 0;
        while i < self.entries.len()
            invariant
                0 <= i <= self.entries@.len(),
                forall|j: int| 0 <= j < i ==> (#[trigger] self.pairs()[j]).0 != name@,
            decreases self.entries@.len() - i,
        {
            if self.entries[i].name == *name {
                return Some(i);
            }
            i += 1;
        }
        proof {
            lemma_absent(self.pairs(), name@);
        }
        None
    }

    /// What `name` is bound to, if it is bound.
    pub fn get(&self, name: &str) -> (key: Option<Key>)
        requires
            self.wf(),
        ensures
            key is Some <==> self@.contains_key(name@),
            key is Some ==> key->0@ == self@[name@],
    {
        let wanted = name.to_owned();
        match self.find(&wanted) {
            Some(i) => {
                proof {
                    lemma_found(self.pairs(), i as int);
                }
                Some(self.entries[i].key)
            },
            None => None,
        }
    }

    /// Whether `name` is bound.
    pub fn contains(&self, name: &str) -> (bound: bool)
        requires
            self.wf(),
        ensures
            bound == self@.contains_key(name@),
    {
        self.get(name).is_some()
    }

    /// Binds `name` to `key`, in place of what it was bound to before.
    pub fn put(&mut self, name: &str, key: Key)
        requires
            old(self).wf(),
        ensures
            final(self).wf(),
            final(self)@ == old(self)@.insert(name@, key@),
    {
        let wanted = name.to_owned();
        let ghost before = self.pairs();
        match self.find(&wanted) {
            Some(i) => {
                self.entries[i].key = key;
                proof {
                    lemma_update(before, i as int, key@);
                    assert(self.pairs() =~= before.update(i as int, (before[i as int].0, key@)));
                }
            },
            None => {
                self.entries.push(NamedKey { name: wanted, key });
                proof {
                    lemma_push(before, name@, key@);
                    assert(self.pairs() =~= before.push((name@, key@)));
                }
            },
        }
    }
}

} // verus!
