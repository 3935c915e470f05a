//! An in-memory keyed store with insert-once and upsert write paths. It is
//! modeled as a `Map` from key characters to stored values; uniqueness of
//! the keys in the backing vector is an internal type invariant.

use vstd::prelude::*;

use crate::repository::error::RepositoryError;
use crate::repository::DBResult;

verus! {

/// Relies on str's PartialEq: two string slices compare equal exactly when
/// their character sequences are equal.
#[verifier::external_body]
fn str_eq(a: &str, b: &str) -> (r: bool)
    ensures
        r == (a@ == b@),
{
    a == b
}

/// The map an association list denotes: later entries win.
spec fn kv_map<T>(s: Seq<(String, T)>) -> Map<Seq<char>, T>
    decreases s.len(),
{
    if s.len() == 0 {
        Map::empty()
    } else {
        kv_map(s.drop_last()).insert(s.last().0@, s.last().1)
    }
}

/// No two entries of the association list share a key.
spec fn unique_keys<T>(s: Seq<(String, T)>) -> bool {
    forall|i: int, j: int| 0 <= i < j < s.len() ==> s[i].0@ != s[j].0@
}

proof fn lemma_kv_map_contains<T>(s: Seq<(String, T)>, key: Seq<char>)
    ensures
        kv_map(s).contains_key(key) <==> exists|i: int| 0 <= i < s.len() && s[i].0@ == key,
    decreases s.len(),
{
    if s.len() > 0 {
        lemma_kv_map_contains(s.drop_last(), key);
        if s.last().0@ == key {
            assert(s[s.len() - 1].0@ == key);
        } else {
            if exists|i: int| 0 <= i < s.len() && s[i].0@ == key {
                let i = choose|i: int| 0 <= i < s.len() && s[i].0@ == key;
                assert(s.drop_last()[i] == s[i]);
            }
        }
    }
}

proof fn lemma_kv_map_index<T>(s: Seq<(String, T)>, i: int)
    requires
        unique_keys(s),
        0 <= i < s.len(),
    ensures
        kv_map(s).contains_key(s[i].0@),
        kv_map(s)[s[i].0@] == s[i].1,
    decreases s.len(),
{
    if i < s.len() - 1 {
        assert(unique_keys(s.drop_last()));
        lemma_kv_map_index(s.drop_last(), i);
        assert(s.drop_last()[i] == s[i]);
        assert(s.last().0@ != s[i].0@);
    }
}

proof fn lemma_kv_map_push<T>(s: Seq<(String, T)>, p: (String, T))
    ensures
        kv_map(s.push(p)) == kv_map(s).insert(p.0@, p.1),
{
    assert(s.push(p).drop_last() =~= s);
    assert(s.push(p).last() == p);
}

proof fn lemma_kv_map_update<T>(s: Seq<(String, T)>, i: int, p: (String, T))
    requires
        unique_keys(s),
        0 <= i < s.len(),
        p.0@ == s[i].0@,
    ensures
        kv_map(s.update(i, p)) == kv_map(s).insert(p.0@, p.1),
        unique_keys(s.update(i, p)),
    decreases s.len(),
{
    let t = s.update(i, p);
    assert forall|a: int, b: int| 0 <= a < b < t.len() implies t[a].0@ != t[b].0@ by {
        assert(s[a].0@ != s[b].0@);
    }
    if i == s.len() - 1 {
        assert(t.drop_last() =~= s.drop_last());
        assert(t.last() == p);
        assert(kv_map(s.drop_last()).insert(p.0@, p.1) =~= kv_map(s.drop_last()).insert(
            s.last().0@,
            s.last().1,
        ).insert(p.0@, p.1));
    } else {
        assert(unique_keys(s.drop_last()));
        lemma_kv_map_update(s.drop_last(), i, p);
        assert(t.drop_last() =~= s.drop_last().update(i, p));
        assert(t.last() == s.last());
        assert(s.last().0@ != p.0@);
        assert(kv_map(s.drop_last()).insert(p.0@, p.1).insert(s.last().0@, s.last().1)
            =~= kv_map(s.drop_last()).insert(s.last().0@, s.last().1).insert(p.0@, p.1));
    }
}

/// An in-memory keyed store of cloneable records. Its view is the map from
/// key characters to the stored values.
pub struct InMemoryRepository<T: Clone> {
    items: Vec<(String, T)>,
}

impl<T: Clone> View for InMemoryRepository<T> {
    type V = Map<Seq<char>, T>;

    closed spec fn view(&self) -> Map<Seq<char>, T> {
        kv_map(self.items@)
    }
}

impl<T: Clone> Default for InMemoryRepository<T> {
    /// An empty store.
    fn default() -> (r: Self)
        ensures
            r@ == Map::<Seq<char>, T>::empty(),
    {
        Self { items: Vec::new() }
    }
}

impl<T: Clone> InMemoryRepository<T> {
    #[verifier::type_invariant]
    spec fn wf(self) -> bool {
        unique_keys(self.items@)
    }

    /// Inserts a record under `key` if the key is free; fails and leaves the
    /// store untouched if the key is already bound.
    pub fn insert(&mut self, key: &str, value: &T) -> (r: DBResult<()>)
        ensures
            match r {
                Ok(()) => !old(self)@.contains_key(key@) && cloned(
                    *value,
                    final(self)@[key@],
                ) && final(self)@ == old(self)@.insert(key@, final(self)@[key@]),
                Err(RepositoryError::ValueAlreadyExists) => old(self)@.contains_key(key@)
                    && final(self)@ == old(self)@,
            },
    {
        self.do_insert(key, value)
    }

    /// Binds `key` to a copy of `value` unconditionally, superseding any
    /// previous record.
    pub fn put(&mut self, key: &str, value: &T) -> (r: DBResult<()>)
        ensures
            r == Ok::<(), RepositoryError>(()),
            cloned(*value, final(self)@[key@]),
            final(self)@ == old(self)@.insert(key@, final(self)@[key@]),
    {
        self.do_put(key, value);
        Ok(())
    }

    /// Reads a copy of the record under `key`, if any.
    pub fn get(&self, key: &str) -> (r: DBResult<Option<T>>)
        ensures
            match r {
                Ok(Some(v)) => self@.contains_key(key@) && cloned(self@[key@], v),
                Ok(None) => !self@.contains_key(key@),
                Err(_) => false,
            },
    {
        Ok(self.do_get(key))
    }

    /// Whether a record is bound under `key`.
    pub fn has_key(&self, key: &str) -> (r: DBResult<bool>)
        ensures
            r == Ok::<bool, RepositoryError>(self@.contains_key(key@)),
    {
        Ok(self.do_exists(key))
    }

    /// The position of `key` in the backing vector, if bound.
    fn index_of(&self, key: &str) -> (r: Option<usize>)
        ensures
            match r {
                Some(i) => i < self.items@.len() && self.items@[i as int].0@ == key@,
                None => forall|i: int| 0 <= i < self.items@.len() ==> self.items@[i].0@ != key@,
            },
    {
        let mut i: usize = 0;
        while i < self.items.len()
            invariant
                i <= self.items@.len(),
                forall|j: int| 0 <= j < i ==> self.items@[j].0@ != key@,
            decreases self.items@.len() - i,
        {
            if str_eq(self.items[i].0.as_str(), key) {
                return Some(i);
            }
            i = i + 1;
        }
        None
    }

    fn do_insert(&mut self, key: &str, value: &T) -> (r: DBResult<()>)
        ensures
            match r {
                Ok(()) => !old(self)@.contains_key(key@) && cloned(
                    *value,
                    final(self)@[key@],
                ) && final(self)@ == old(self)@.insert(key@, final(self)@[key@]),
                Err(RepositoryError::ValueAlreadyExists) => old(self)@.contains_key(key@)
                    && final(self)@ == old(self)@,
            },
    {
        match self.do_exists(key) {
            false => match self.do_put(key, value) {
                None => Ok(()),
                Some(_) => unreached(),
            },
            true => Err(RepositoryError::ValueAlreadyExists),
        }
    }

    fn do_put(&mut self, key: &str, value: &T) -> (prev: Option<T>)
        ensures
            final(self)@.contains_key(key@),
            cloned(*value, final(self)@[key@]),
            final(self)@ == old(self)@.insert(key@, final(self)@[key@]),
            prev is Some <==> old(self)@.contains_key(key@),
    {
        proof {
            use_type_invariant(&*self);
        }
        let idx = self.index_of(key);
        let owned_key = <String as vstd::string::StringExecFns>::from_str(key);
        let pair = (owned_key, value.clone());
        let ghost stored = pair.1;
        let mut items: Vec<(String, T)> = Vec::new();
        core::mem::swap(&mut items, &mut self.items);
        let ghost s0 = items@;
        proof {
            lemma_kv_map_contains(s0, key@);
        }
        let prev: Option<T> = match idx {
            None => {
                proof {
                    lemma_kv_map_push(s0, pair);
                    assert forall|a: int, b: int|
                        0 <= a < b < s0.push(pair).len() implies s0.push(pair)[a].0@ != s0.push(
                        pair,
                    )[b].0@ by {
                        if b < s0.len() {
                            assert(s0[a].0@ != s0[b].0@);
                        } else {
                            assert(s0[a].0@ != key@);
                        }
                    }
                }
                items.push(pair);
                None
            },
            Some(i) => {
                let prev_value = items[i].1.clone();
                proof {
                    lemma_kv_map_update(s0, i as int, pair);
                }
                items.set(i, pair);
                Some(prev_value)
            },
        };
        self.items = items;
        proof {
            assert(self@ == kv_map(s0).insert(key@, stored));
            assert(self@[key@] == stored);
        }
        prev
    }

    fn do_get(&self, key: &str) -> (r: Option<T>)
        ensures
            match r {
                Some(v) => self@.contains_key(key@) && cloned(self@[key@], v),
                None => !self@.contains_key(key@),
            },
    {
        proof {
            use_type_invariant(&*self);
        }
        match self.index_of(key) {
            Some(i) => {
                proof {
                    lemma_kv_map_index(self.items@, i as int);
                }
                Some(self.items[i].1.clone())
            },
            None => {
                proof {
                    lemma_kv_map_contains(self.items@, key@);
                }
                None
            },
        }
    }

    fn do_exists(&self, key: &str) -> (r: bool)
        ensures
            r == self@.contains_key(key@),
    {
        proof {
            use_type_invariant(&*self);
        }
        match self.index_of(key) {
            Some(i) => {
                proof {
                    lemma_kv_map_index(self.items@, i as int);
                }
                true
            },
            None => {
                proof {
                    lemma_kv_map_contains(self.items@, key@);
                }
                false
            },
        }
    }
}

} // verus!
