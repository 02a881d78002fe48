//! A string-keyed map that keeps its entries in insertion order.
//!
//! The workflow model keys jobs, environment variables, outputs and step
//! statuses by name; this map gives those lookups an exact specification
//! (its view is a `Map<Seq<char>, V>`) and a deterministic iteration order.
use vstd::prelude::*;
use crate::text::str_eq;

verus! {

/// A map from strings to values; keys are unique, entries keep insertion order.
pub struct StrMap<V> {
    entries: Vec<(String, V)>,
}

impl<V> StrMap<V> {
    /// Keys in entry order.
    pub closed spec fn key_seq(self) -> Seq<Seq<char>> {
        self.entries@.map_values(|e: (String, V)| e.0@)
    }

    /// Values in entry order.
    pub closed spec fn val_seq(self) -> Seq<V> {
        self.entries@.map_values(|e: (String, V)| e.1)
    }

    /// Keys never repeat.
    #[verifier::type_invariant]
    pub closed spec fn keys_unique(self) -> bool {
        self.key_seq().no_duplicates()
    }

    /// Every key occurs once, and the view agrees with the entry order.
    pub proof fn lemma_wf(&self)
        requires
            self.keys_unique(),
        ensures
            self.key_seq().no_duplicates(),
            self.key_seq().len() == self.val_seq().len(),
            self.key_seq().to_set() == self@.dom(),
            forall|i: int| 0 <= i < self.key_seq().len() ==> #[trigger] self@[self.key_seq()[i]] == self.val_seq()[i],
    {
        assert(self.key_seq().to_set() =~= self@.dom());
        assert forall|i: int| 0 <= i < self.key_seq().len() implies #[trigger] self@[self.key_seq()[i]] == self.val_seq()[i] by {
            let k = self.key_seq()[i];
            assert(self.key_seq().contains(k));
            let j = self.key_seq().index_of(k);
            assert(self.key_seq()[j] == k);
        }
    }

    /// An empty map.
    pub fn new() -> (m: Self)
        ensures
            m@ == Map::<Seq<char>, V>::empty(),
            m.key_seq() == Seq::<Seq<char>>::empty(),
    {
        let m = StrMap { entries: Vec::new() };
        assert(m@ =~= Map::<Seq<char>, V>::empty());
        m
    }

    /// Number of entries.
    pub fn len(&self) -> (n: usize)
        ensures
            n == self.key_seq().len(),
            n == self@.dom().len(),
    {
        proof {
            use_type_invariant(&*self);
            self.lemma_wf();
            self.key_seq().unique_seq_to_set();
        }
        self.entries.len()
    }

    /// Position of `k` among the keys.
    pub fn position(&self, k: &str) -> (r: Option<usize>)
        ensures
            match r {
                Some(i) => i < self.key_seq().len() && self.key_seq()[i as int] == k@,
                None => !self@.dom().contains(k@),
            },
    {
        proof { use_type_invariant(&*self); self.lemma_wf(); }
        let mut i: usize = 0;
        while i < self.entries.len()
            invariant
                i <= self.entries@.len(),
                self.key_seq().len() == self.entries@.len(),
                forall|j: int| 0 <= j < i ==> self.key_seq()[j] != k@,
            decreases self.entries.len() - i,
        {
            if str_eq(self.entries[i].0.as_str(), k) {
                return Some(i);
            }
            i = i + 1;
        }
        proof {
            if self@.dom().contains(k@) {
                assert(self.key_seq().contains(k@));
            }
        }
        None
    }

    /// `k` is a key.
    pub fn contains_key(&self, k: &str) -> (b: bool)
        ensures
            b == self@.dom().contains(k@),
    {
        proof { use_type_invariant(&*self); self.lemma_wf(); }
        match self.position(k) {
            Some(i) => {
                assert(self.key_seq().contains(k@));
                true
            },
            None => false,
        }
    }

    /// The value at key `k`, if any.
    pub fn get(&self, k: &str) -> (r: Option<&V>)
        ensures
            match r {
                Some(v) => self@.dom().contains(k@) && *v == self@[k@],
                None => !self@.dom().contains(k@),
            },
    {
        proof { use_type_invariant(&*self); self.lemma_wf(); }
        match self.position(k) {
            Some(i) => {
                assert(self.key_seq().contains(k@));
                assert(self.val_seq()[i as int] == self.entries@[i as int].1);
                Some(&self.entries[i].1)
            },
            None => None,
        }
    }

    /// The key and value of entry `i`.
    pub fn entry(&self, i: usize) -> (r: (&String, &V))
        requires
            i < self.key_seq().len(),
        ensures
            r.0@ == self.key_seq()[i as int],
            *r.1 == self.val_seq()[i as int],
            *r.1 == self@[r.0@],
    {
        proof { use_type_invariant(&*self); self.lemma_wf(); }
        (&self.entries[i].0, &self.entries[i].1)
    }

    /// The keys, in entry order.
    pub fn keys(&self) -> (r: Vec<String>)
        ensures
            crate::text::views(r@) == self.key_seq(),
    {
        let mut r: Vec<String> = Vec::new();
        let mut i: usize = 0;
        while i < self.entries.len()
            invariant
                i <= self.entries@.len(),
                crate::text::views(r@) == self.key_seq().take(i as int),
            decreases self.entries.len() - i,
        {
            let ghost before = r@;
            let k = self.entries[i].0.clone();
            assert(k@ == self.entries@[i as int].0@);
            r.push(k);
            assert(self.key_seq()[i as int] == self.entries@[i as int].0@);
            assert(crate::text::views(r@) =~= crate::text::views(before).push(k@));
            assert(self.key_seq().take(i + 1) =~= self.key_seq().take(i as int).push(self.key_seq()[i as int]));
            assert(crate::text::views(r@) =~= self.key_seq().take(i + 1));
            i = i + 1;
        }
        assert(self.key_seq().take(self.entries@.len() as int) =~= self.key_seq());
        r
    }

    /// Sets `k` to `v`: an existing key keeps its place, a new key goes last.
    pub fn insert(&mut self, k: String, v: V)
        ensures
            final(self)@ == old(self)@.insert(k@, v),
            old(self)@.dom().contains(k@) ==> final(self).key_seq() == old(self).key_seq(),
            !old(self)@.dom().contains(k@) ==> final(self).key_seq() == old(self).key_seq().push(k@),
    {
        proof { use_type_invariant(&*self); self.lemma_wf(); }
        let ghost old_keys = self.key_seq();
        let ghost old_vals = self.val_seq();
        let ghost old_map = self@;
        match self.position(k.as_str()) {
            Some(i) => {
                let ghost kk = k@;
                let mut es: Vec<(String, V)> = Vec::new();
                std::mem::swap(&mut es, &mut self.entries);
                es.set(i, (k, v));
                proof {
                    let ks = es@.map_values(|e: (String, V)| e.0@);
                    assert(ks =~= old_keys);
                }
                self.entries = es;
                assert(self.key_seq() =~= old_keys);
                assert(self.val_seq() =~= old_vals.update(i as int, v));
                proof {
                    use_type_invariant(&*self);
                    self.lemma_wf();
                    assert forall|key: Seq<char>| #![auto] self@.dom().contains(key) <==> old_map.insert(kk, v).dom().contains(key) by {
                        assert(self.key_seq().to_set().contains(key) <==> old_keys.to_set().contains(key));
                    }
                    assert forall|key: Seq<char>| #![auto] self@.dom().contains(key) implies self@[key] == old_map.insert(kk, v)[key] by {
                        let j = self.key_seq().index_of(key);
                        assert(self.key_seq().contains(key));
                        assert(self@[self.key_seq()[j]] == self.val_seq()[j]);
                        if key == kk {
                            assert(j == i);
                        } else {
                            assert(old_map[old_keys[j]] == old_vals[j]);
                        }
                    }
                    assert(self@ =~= old_map.insert(kk, v));
                }
            },
            None => {
                let ghost kk = k@;
                let mut es: Vec<(String, V)> = Vec::new();
                std::mem::swap(&mut es, &mut self.entries);
                es.push((k, v));
                proof {
                    let ks = es@.map_values(|e: (String, V)| e.0@);
                    assert(ks =~= old_keys.push(kk));
                    assert(!old_keys.contains(kk)) by {
                        assert(old_keys.to_set().contains(kk) == old_map.dom().contains(kk));
                    }
                }
                self.entries = es;
                assert(self.key_seq() =~= old_keys.push(kk));
                assert(self.val_seq() =~= old_vals.push(v));
                proof {
                    assert(!old_keys.contains(kk)) by {
                        assert(old_keys.to_set().contains(kk) == old_map.dom().contains(kk));
                    }
                    assert(self.key_seq().no_duplicates());
                    use_type_invariant(&*self);
                    self.lemma_wf();
                    assert forall|key: Seq<char>| #![auto] self@.dom().contains(key) <==> old_map.insert(kk, v).dom().contains(key) by {
                        assert(self.key_seq().to_set().contains(key) <==> (old_keys.to_set().contains(key) || key == kk)) by {
                            if self.key_seq().contains(key) && key != kk {
                                let j = choose|j: int| 0 <= j < self.key_seq().len() && self.key_seq()[j] == key;
                                assert(old_keys[j] == key);
                            }
                            if old_keys.contains(key) {
                                let j = choose|j: int| 0 <= j < old_keys.len() && old_keys[j] == key;
                                assert(self.key_seq()[j] == key);
                            }
                            if key == kk {
                                assert(self.key_seq()[old_keys.len() as int] == key);
                            }
                        }
                    }
                    assert forall|key: Seq<char>| #![auto] self@.dom().contains(key) implies self@[key] == old_map.insert(kk, v)[key] by {
                        let j = self.key_seq().index_of(key);
                        assert(self.key_seq().contains(key));
                        assert(self@[self.key_seq()[j]] == self.val_seq()[j]);
                        if key != kk {
                            assert(j < old_keys.len());
                            assert(old_map[old_keys[j]] == old_vals[j]);
                        }
                    }
                    assert(self@ =~= old_map.insert(kk, v));
                }
            },
        }
    }
}

impl<V> View for StrMap<V> {
    type V = Map<Seq<char>, V>;

    open spec fn view(&self) -> Map<Seq<char>, V> {
        Map::new(
            |k: Seq<char>| self.key_seq().contains(k),
            |k: Seq<char>| self.val_seq()[self.key_seq().index_of(k)],
        )
    }
}

/// The text values of a string map.
pub open spec fn str_view(m: Map<Seq<char>, String>) -> Map<Seq<char>, Seq<char>> {
    m.map_values(|s: String| s@)
}

/// Sets `k` to `v` in a string map.
pub fn insert_str(m: &mut StrMap<String>, k: &str, v: String)
    ensures
        str_view(final(m)@) == str_view(old(m)@).insert(k@, v@),
{
    let ghost vv = v;
    m.insert(crate::text::owned(k), v);
    assert(str_view(m@) =~= str_view(old(m)@).insert(k@, vv@));
}

/// A copy of a string map, entry order kept.
pub fn copy_str_map(v: &StrMap<String>) -> (r: StrMap<String>)
    ensures
        str_view(r@) == str_view(v@),
{
    let mut m: StrMap<String> = StrMap::new();
    let n = v.len();
    let mut i: usize = 0;
    proof { use_type_invariant(v); v.lemma_wf(); }
    assert(str_view(m@) =~= str_view(v@).restrict(v.key_seq().take(0).to_set()));
    while i < n
        invariant
            i <= n,
            n == v.key_seq().len(),
            forall|t: int| 0 <= t < v.key_seq().len() ==> #[trigger] v@[v.key_seq()[t]] == v.val_seq()[t],
            v.key_seq().to_set() == v@.dom(),
            str_view(m@) == str_view(v@).restrict(v.key_seq().take(i as int).to_set()),
        decreases n - i,
    {
        let (k, x) = v.entry(i);
        insert_str(&mut m, k.as_str(), x.clone());
        proof {
            let t0 = v.key_seq().take(i as int);
            let t1 = v.key_seq().take(i + 1);
            assert(t1 =~= t0.push(k@));
            assert forall|y: Seq<char>| t1.to_set().contains(y) <==> t0.to_set().insert(k@).contains(y) by {
                if t1.contains(y) {
                    let j = choose|j: int| 0 <= j < t1.len() && t1[j] == y;
                    if j < i { assert(t0[j] == y); }
                }
                if t0.contains(y) {
                    let j = choose|j: int| 0 <= j < t0.len() && t0[j] == y;
                    assert(t1[j] == y);
                }
                if y == k@ { assert(t1[i as int] == y); }
            }
            assert(str_view(m@) =~= str_view(v@).restrict(t1.to_set()));
        }
        i = i + 1;
    }
    assert(v.key_seq().take(n as int) =~= v.key_seq());
    assert(str_view(v@).restrict(v.key_seq().to_set()) =~= str_view(v@));
    m
}

/// Adds each entry of `globals` whose key `env` does not have yet.
pub fn add_missing(env: &mut StrMap<String>, globals: &StrMap<String>)
    ensures
        str_view(final(env)@) == str_view(globals@).union_prefer_right(str_view(old(env)@)),
{
    let ghost e0 = str_view(env@);
    let n = globals.len();
    let mut i: usize = 0;
    proof { use_type_invariant(globals); globals.lemma_wf(); }
    assert(str_view(env@) =~= str_view(globals@).restrict(globals.key_seq().take(0).to_set()).union_prefer_right(e0));
    while i < n
        invariant
            i <= n,
            n == globals.key_seq().len(),
            forall|t: int| 0 <= t < globals.key_seq().len() ==> #[trigger] globals@[globals.key_seq()[t]] == globals.val_seq()[t],
            globals.key_seq().to_set() == globals@.dom(),
            str_view(env@) == str_view(globals@).restrict(globals.key_seq().take(i as int).to_set()).union_prefer_right(e0),
        decreases n - i,
    {
        let (k, x) = globals.entry(i);
        let ghost before = str_view(env@);
        let present = env.contains_key(k.as_str());
        if !present {
            insert_str(env, k.as_str(), x.clone());
        }
        proof {
            assert(present ==> str_view(env@) == before);
            assert(!present ==> !before.dom().contains(k@));
            assert(!present ==> str_view(env@) == before.insert(k@, x@));
            let t0 = globals.key_seq().take(i as int);
            let t1 = globals.key_seq().take(i + 1);
            assert(t1 =~= t0.push(k@));
            assert forall|y: Seq<char>| t1.to_set().contains(y) <==> t0.to_set().insert(k@).contains(y) by {
                if t1.contains(y) {
                    let j = choose|j: int| 0 <= j < t1.len() && t1[j] == y;
                    if j < i { assert(t0[j] == y); }
                }
                if t0.contains(y) {
                    let j = choose|j: int| 0 <= j < t0.len() && t0[j] == y;
                    assert(t1[j] == y);
                }
                if y == k@ { assert(t1[i as int] == y); }
            }
            assert(str_view(env@) =~= str_view(globals@).restrict(t1.to_set()).union_prefer_right(e0));
        }
        i = i + 1;
    }
    assert(globals.key_seq().take(n as int) =~= globals.key_seq());
    assert(str_view(globals@).restrict(globals.key_seq().to_set()) =~= str_view(globals@));
}

} // verus!
