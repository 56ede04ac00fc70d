//! A small map from string ids to values that keeps insertion order.
//!
//! Every registry of the crate (servers, panels, assistants, providers) is
//! built on it. Its view is the sequence of `(id, value)` pairs in the order
//! they were added; well-formedness says that no id occurs twice.
use vstd::prelude::*;

use crate::error::PluginError;

verus! {

/// An insertion-ordered collection of values keyed by unique string ids.
pub struct IdMap<T> {
    entries: Vec<(String, T)>,
}

impl<T> View for IdMap<T> {
    type V = Seq<(Seq<char>, T)>;

    closed spec fn view(&self) -> Seq<(Seq<char>, T)> {
        self.entries@.map_values(|e: (String, T)| (e.0@, e.1))
    }
}

/// The ids of a sequence of entries, in order.
pub open spec fn keys_of<T>(s: Seq<(Seq<char>, T)>) -> Seq<Seq<char>> {
    s.map_values(|e: (Seq<char>, T)| e.0)
}

proof fn lemma_keys_remove<T>(s: Seq<(Seq<char>, T)>, i: int)
    requires
        0 <= i < s.len(),
        keys_of(s).no_duplicates(),
    ensures
        keys_of(s.remove(i)) == keys_of(s).remove(i),
        keys_of(s.remove(i)).no_duplicates(),
{
    assert(keys_of(s.remove(i)) =~= keys_of(s).remove(i));
    let k = keys_of(s);
    let r = k.remove(i);
    assert forall|a: int, b: int| 0 <= a < r.len() && 0 <= b < r.len() && a != b implies r[a]
        != r[b] by {
        let a2 = if a < i { a } else { a + 1 };
        let b2 = if b < i { b } else { b + 1 };
        assert(r[a] == k[a2]);
        assert(r[b] == k[b2]);
    }
}

proof fn lemma_keys_update<T>(s: Seq<(Seq<char>, T)>, i: int, v: T)
    requires
        0 <= i < s.len(),
    ensures
        keys_of(s.update(i, (s[i].0, v))) == keys_of(s),
{
    assert(keys_of(s.update(i, (s[i].0, v))) =~= keys_of(s));
}

proof fn lemma_view_update<T>()
    ensures
        forall|e: Seq<(String, T)>, i: int, k: String, v: T|
            0 <= i < e.len() && #[trigger] e.update(i, (k, v)) == e.update(i, (k, v)) && k@
                == e[i].0@ ==> e.update(i, (k, v)).map_values(|x: (String, T)| (x.0@, x.1))
                == e.map_values(|x: (String, T)| (x.0@, x.1)).update(i, (e[i].0@, v)),
{
    assert forall|e: Seq<(String, T)>, i: int, k: String, v: T|
        0 <= i < e.len() && #[trigger] e.update(i, (k, v)) == e.update(i, (k, v)) && k@ == e[i].0@
        implies e.update(i, (k, v)).map_values(|x: (String, T)| (x.0@, x.1)) == e.map_values(
        |x: (String, T)| (x.0@, x.1),
    ).update(i, (e[i].0@, v)) by {
        assert(e.update(i, (k, v)).map_values(|x: (String, T)| (x.0@, x.1)) =~= e.map_values(
            |x: (String, T)| (x.0@, x.1),
        ).update(i, (e[i].0@, v)));
    }
}

proof fn lemma_keys_update_all<T>()
    ensures
        forall|s: Seq<(Seq<char>, T)>, i: int, v: T|
            0 <= i < s.len() ==> #[trigger] keys_of(s.update(i, (s[i].0, v))) == keys_of(s),
{
    assert forall|s: Seq<(Seq<char>, T)>, i: int, v: T| 0 <= i < s.len() implies #[trigger] keys_of(
        s.update(i, (s[i].0, v)),
    ) == keys_of(s) by {
        lemma_keys_update(s, i, v);
    }
}

impl<T> IdMap<T> {
    /// The ids, in insertion order.
    pub open spec fn keys(&self) -> Seq<Seq<char>> {
        keys_of(self@)
    }

    /// No id occurs twice.
    pub open spec fn wf(&self) -> bool {
        self.keys().no_duplicates()
    }

    /// Whether `id` is present.
    pub open spec fn has(&self, id: Seq<char>) -> bool {
        self.keys().contains(id)
    }

    /// An empty map.
    pub fn new() -> (r: Self)
        ensures
            r.wf(),
            r@ == Seq::<(Seq<char>, T)>::empty(),
    {
        let r = IdMap { entries: Vec::new() };
        assert(r@ =~= Seq::<(Seq<char>, T)>::empty());
        r
    }

    /// Number of entries.
    pub fn len(&self) -> (r: usize)
        ensures
            r == self@.len(),
    {
        self.entries.len()
    }

    /// The position of `id`, if present.
    pub fn find(&self, id: &String) -> (r: Option<usize>)
        ensures
            r is None <==> !self.has(id@),
            r matches Some(i) ==> i < self@.len() && self@[i as int].0 == id@,
    {
        let mut i: usize = 0;
        while i < self.entries.len()
            invariant
                i <= self.entries.len(),
                forall|j: int| 0 <= j < i ==> self@[j].0 != id@,
            decreases self.entries.len() - i,
        {
            if self.entries[i].0 == *id {
                assert(self.keys()[i as int] == id@);
                return Some(i);
            }
            i = i + 1;
        }
        proof {
            if self.has(id@) {
                let j = choose|j: int| 0 <= j < self.keys().len() && self.keys()[j] == id@;
                assert(self@[j].0 == id@);
            }
        }
        None
    }

    /// Whether `id` is present.
    pub fn contains(&self, id: &String) -> (r: bool)
        ensures
            r == self.has(id@),
    {
        self.find(id).is_some()
    }

    /// Adds `(id, value)` at the end unless `id` is already present.
    pub fn insert_new(&mut self, id: String, value: T) -> (r: Result<(), PluginError>)
        requires
            old(self).wf(),
        ensures
            final(self).wf(),
            old(self).has(id@) ==> r == Err::<(), PluginError>(PluginError::DuplicateId) && final(self)@ == old(self)@,
            !old(self).has(id@) ==> r is Ok && final(self)@ == old(self)@.push((id@, value)),
    {
        if self.contains(&id) {
            return Err(PluginError::DuplicateId);
        }
        let ghost k = id@;
        self.entries.push((id, value));
        assert(self@ =~= old(self)@.push((k, value)));
        assert(self.keys() =~= old(self).keys().push(k));
        Ok(())
    }

    /// Adds `(id, value)`, replacing the value of `id` in place if present.
    pub fn upsert(&mut self, id: String, value: T)
        requires
            old(self).wf(),
        ensures
            final(self).wf(),
            final(self).has(id@),
            old(self).has(id@) ==> exists|i: int|
                0 <= i < old(self)@.len() && old(self)@[i].0 == id@ && final(self)@ == old(self)@.update(i, (id@, value)),
            !old(self).has(id@) ==> final(self)@ == old(self)@.push((id@, value)),
    {
        match self.find(&id) {
            Some(i) => {
                let ghost k = id@;
                proof {
                    lemma_keys_update(self@, i as int, value);
                }
                self.entries.set(i, (id, value));
                assert(self@ =~= old(self)@.update(i as int, (k, value)));
                assert(self.keys()[i as int] == k);
            },
            None => {
                let ghost k = id@;
                self.entries.push((id, value));
                assert(self@ =~= old(self)@.push((k, value)));
                assert(self.keys() =~= old(self).keys().push(k));
                assert(self.keys()[self.keys().len() - 1] == k);
            },
        }
    }

    /// Removes the entry of `id` and hands back its value.
    pub fn remove(&mut self, id: &String) -> (r: Result<T, PluginError>)
        requires
            old(self).wf(),
        ensures
            final(self).wf(),
            !old(self).has(id@) ==> r == Err::<T, PluginError>(PluginError::NotFound) && final(self)@ == old(self)@,
            old(self).has(id@) ==> r is Ok && exists|i: int|
                0 <= i < old(self)@.len() && old(self)@[i] == (id@, r->Ok_0) && final(self)@
                    == old(self)@.remove(i),
    {
        match self.find(id) {
            None => Err(PluginError::NotFound),
            Some(i) => {
                proof {
                    lemma_keys_remove(self@, i as int);
                }
                let e = self.entries.remove(i);
                assert(self@ =~= old(self)@.remove(i as int));
                Ok(e.1)
            },
        }
    }

    /// The value of `id`, if present.
    pub fn get(&self, id: &String) -> (r: Option<&T>)
        ensures
            r is None <==> !self.has(id@),
            r matches Some(v) ==> exists|i: int|
                0 <= i < self@.len() && self@[i].0 == id@ && self@[i].1 == *v,
    {
        match self.find(id) {
            None => None,
            Some(i) => Some(&self.entries[i].1),
        }
    }

    /// The id stored at position `i`.
    pub fn key_at(&self, i: usize) -> (r: &String)
        requires
            i < self@.len(),
        ensures
            r@ == self@[i as int].0,
    {
        &self.entries[i].0
    }

    /// The value stored at position `i`.
    pub fn value_at(&self, i: usize) -> (r: &T)
        requires
            i < self@.len(),
        ensures
            *r == self@[i as int].1,
    {
        &self.entries[i].1
    }

    /// The value at position `i`, for update in place; the ids stay as they are.
    pub fn value_at_mut(&mut self, i: usize) -> (r: &mut T)
        requires
            i < old(self)@.len(),
        ensures
            *r == old(self)@[i as int].1,
            final(self)@ == old(self)@.update(i as int, (old(self)@[i as int].0, *final(r))),
            final(self).keys() == old(self).keys(),
    {
        proof {
            lemma_view_update::<T>();
            lemma_keys_update_all::<T>();
        }
        let e = &mut self.entries[i];
        &mut e.1
    }

    /// The value of `id`, for update in place; the ids stay as they are.
    pub fn get_mut(&mut self, id: &String) -> (r: Option<&mut T>)
        ensures
            r is None <==> !old(self).has(id@),
            r is None ==> final(self)@ == old(self)@,
            final(self).keys() == old(self).keys(),
            r matches Some(v) ==> exists|i: int|
                0 <= i < old(self)@.len() && old(self)@[i].0 == id@ && old(self)@[i].1 == *v
                    && final(self)@ == old(self)@.update(i, (id@, *final(v))),
    {
        match self.find(id) {
            None => None,
            Some(i) => Some(self.value_at_mut(i)),
        }
    }

    /// Replaces the value at position `i`, keeping its id.
    pub fn set_value_at(&mut self, i: usize, value: T)
        requires
            old(self).wf(),
            i < old(self)@.len(),
        ensures
            final(self).wf(),
            final(self)@ == old(self)@.update(i as int, (old(self)@[i as int].0, value)),
    {
        proof {
            lemma_keys_update(self@, i as int, value);
        }
        let ghost k = self@[i as int].0;
        let id = self.entries[i].0.clone();
        self.entries.set(i, (id, value));
        assert(self@ =~= old(self)@.update(i as int, (k, value)));
    }

    /// Copies of the ids, in insertion order.
    pub fn ids(&self) -> (r: Vec<String>)
        ensures
            r@.map_values(|s: String| s@) == self.keys(),
    {
        let mut out: Vec<String> = Vec::new();
        let mut i: usize = 0;
        while i < self.entries.len()
            invariant
                i <= self.entries.len(),
                out@.map_values(|s: String| s@) == self.keys().subrange(0, i as int),
            decreases self.entries.len() - i,
        {
            let ghost prev = out@;
            let k = self.entries[i].0.clone();
            assert(k@ == self.keys()[i as int]);
            out.push(k);
            assert(out@.map_values(|s: String| s@) =~= prev.map_values(|s: String| s@).push(k@));
            i = i + 1;
            assert(out@.map_values(|s: String| s@) =~= self.keys().subrange(0, i as int));
        }
        assert(self.keys().subrange(0, i as int) =~= self.keys());
        out
    }
}

} // verus!
