//! A dictionary from line titles to line keys.
use vstd::prelude::*;

verus! {

/// The map that a list of distinct (title, key) entries stands for.
pub open spec fn entries_map<K>(e: Seq<(String, K)>) -> Map<Seq<char>, K>
    decreases e.len(),
{
    if e.len() == 0 {
        Map::empty()
    } else {
        entries_map(e.drop_last()).insert(e.last().0@, e.last().1)
    }
}

/// No title occurs twice.
pub open spec fn distinct_titles<K>(e: Seq<(String, K)>) -> bool {
    forall|i: int, j: int| 0 <= i < j < e.len() ==> (#[trigger] e[i]).0@ != (#[trigger] e[j]).0@
}

proof fn lemma_entries_map_lookup<K>(e: Seq<(String, K)>, t: Seq<char>)
    requires
        distinct_titles(e),
    ensures
        entries_map(e).contains_key(t) <==> exists|i: int| 0 <= i < e.len() && (#[trigger] e[i]).0@ == t,
        forall|i: int| 0 <= i < e.len() && (#[trigger] e[i]).0@ == t ==> entries_map(e)[t] == e[i].1,
    decreases e.len(),
{
    if e.len() > 0 {
        let p = e.drop_last();
        assert(distinct_titles(p));
        lemma_entries_map_lookup(p, t);
        if e.last().0@ != t {
            if entries_map(e).contains_key(t) {
                let i = choose|i: int| 0 <= i < p.len() && (#[trigger] p[i]).0@ == t;
                assert(e[i] == p[i]);
            }
            if exists|i: int| 0 <= i < e.len() && (#[trigger] e[i]).0@ == t {
                let i = choose|i: int| 0 <= i < e.len() && (#[trigger] e[i]).0@ == t;
                assert(i < e.len() - 1);
                assert(p[i] == e[i]);
            }
            assert forall|i: int| 0 <= i < e.len() && (#[trigger] e[i]).0@ == t implies entries_map(e)[t] == e[i].1 by {
                assert(i < e.len() - 1);
                assert(p[i] == e[i]);
            }
        } else {
            assert(e[e.len() - 1].0@ == t);
            assert forall|i: int| 0 <= i < e.len() && (#[trigger] e[i]).0@ == t implies entries_map(e)[t] == e[i].1 by {
                if i < e.len() - 1 {
                    assert(e[i].0@ != e[e.len() - 1].0@);
                }
            }
        }
    }
}

proof fn lemma_entries_map_update<K>(e: Seq<(String, K)>, i: int, s: String, v: K)
    requires
        distinct_titles(e),
        0 <= i < e.len(),
        e[i].0@ == s@,
    ensures
        distinct_titles(e.update(i, (s, v))),
        entries_map(e.update(i, (s, v))) == entries_map(e).insert(s@, v),
    decreases e.len(),
{
    let u = e.update(i, (s, v));
    assert(distinct_titles(u)) by {
        assert forall|a: int, b: int| 0 <= a < b < u.len() implies (#[trigger] u[a]).0@ != (#[trigger] u[b]).0@ by {
            assert(e[a].0@ != e[b].0@);
        }
    }
    if i == e.len() - 1 {
        assert(u.drop_last() =~= e.drop_last());
    } else {
        let p = e.drop_last();
        assert(distinct_titles(p));
        lemma_entries_map_update(p, i, s, v);
        assert(u.drop_last() =~= p.update(i, (s, v)));
        assert(e.last().0@ != s@) by {
            assert(e[i].0@ != e[e.len() - 1].0@);
        }
        assert(entries_map(u) =~= entries_map(e).insert(s@, v));
    }
}

proof fn lemma_entries_map_push<K>(e: Seq<(String, K)>, s: String, v: K)
    requires
        distinct_titles(e),
        !entries_map(e).contains_key(s@),
    ensures
        distinct_titles(e.push((s, v))),
        entries_map(e.push((s, v))) == entries_map(e).insert(s@, v),
{
    lemma_entries_map_lookup(e, s@);
    let u = e.push((s, v));
    assert(u.drop_last() =~= e);
    assert(distinct_titles(u)) by {
        assert forall|a: int, b: int| 0 <= a < b < u.len() implies (#[trigger] u[a]).0@ != (#[trigger] u[b]).0@ by {
            if b == e.len() {
                assert(u[a] == e[a]);
            } else {
                assert(u[a] == e[a] && u[b] == e[b]);
            }
        }
    }
}

/// A dictionary from line titles to keys. Each title occurs once.
pub struct KeysDict<Keys> {
    entries: Vec<(String, Keys)>,
}

impl<Keys> View for KeysDict<Keys> {
    type V = Map<Seq<char>, Keys>;

    closed spec fn view(&self) -> Map<Seq<char>, Keys> {
        entries_map(self.entries@)
    }
}

impl<Keys> KeysDict<Keys> {
    #[verifier::type_invariant]
    spec fn titles_distinct(self) -> bool {
        distinct_titles(self.entries@)
    }
}

impl<Keys: Copy> KeysDict<Keys> {
    /// An empty dictionary.
    pub fn new() -> (r: KeysDict<Keys>)
        ensures
            r@ == Map::<Seq<char>, Keys>::empty(),
    {
        KeysDict { entries: Vec::new() }
    }

    /// The number of titles.
    pub fn len(&self) -> (r: usize)
        ensures
            r == self@.len(),
    {
        proof {
            use_type_invariant(self);
            self.lemma_len();
        }
        self.entries.len()
    }

    proof fn lemma_len(&self)
        requires
            distinct_titles(self.entries@),
        ensures
            self@.dom().finite(),
            self@.len() == self.entries@.len(),
    {
        lemma_entries_len(self.entries@);
    }

    /// The position of `title` among the entries.
    fn position(&self, title: &str) -> (r: Option<usize>)
        ensures
            r matches Some(i) ==> i < self.entries@.len() && self.entries@[i as int].0@ == title@,
            r is None ==> forall|i: int| 0 <= i < self.entries@.len() ==> (#[trigger] self.entries@[i]).0@ != title@,
    {
        let owned = title.to_owned();
        let n = self.entries.len();
        let mut i: usize = 0;
        while i < n
            invariant
                i <= n,
                n == self.entries@.len(),
                owned@ == title@,
                forall|j: int| 0 <= j < i ==> (#[trigger] self.entries@[j]).0@ != title@,
            decreases n - i,
        {
            if self.entries[i].0 == owned {
                return Some(i);
            }
            i = i + 1;
        }
        None
    }

    /// The key of `title`, if the dictionary has it.
    pub fn get(&self, title: &str) -> (r: Option<Keys>)
        ensures
            r == (if self@.contains_key(title@) {
                Some(self@[title@])
            } else {
                None
            }),
    {
        proof {
            use_type_invariant(self);
            lemma_entries_map_lookup(self.entries@, title@);
        }
        match self.position(title) {
            Some(i) => Some(self.entries[i].1),
            None => None,
        }
    }

    /// Sets the key of `title`, replacing any key it had.
    pub fn insert(&mut self, title: String, key: Keys)
        ensures
            final(self)@ == old(self)@.insert(title@, key),
    {
        proof {
            use_type_invariant(&*self);
            lemma_entries_map_lookup(self.entries@, title@);
        }
        match self.position(title.as_str()) {
            Some(i) => {
                proof {
                    lemma_entries_map_update(self.entries@, i as int, title, key);
                }
                let mut entries: Vec<(String, Keys)> = Vec::new();
                std::mem::swap(&mut entries, &mut self.entries);
                entries.set(i, (title, key));
                self.entries = entries;
            },
            None => {
                proof {
                    lemma_entries_map_push(self.entries@, title, key);
                }
                let mut entries: Vec<(String, Keys)> = Vec::new();
                std::mem::swap(&mut entries, &mut self.entries);
                entries.push((title, key));
                self.entries = entries;
            },
        }
    }

    /// Sets the key of `title` unless it already has one.
    pub fn insert_if_absent(&mut self, title: String, key: Keys)
        ensures
            final(self)@ == (if old(self)@.contains_key(title@) {
                old(self)@
            } else {
                old(self)@.insert(title@, key)
            }),
    {
        proof {
            use_type_invariant(&*self);
            lemma_entries_map_lookup(self.entries@, title@);
        }
        match self.position(title.as_str()) {
            Some(_) => {},
            None => {
                proof {
                    lemma_entries_map_push(self.entries@, title, key);
                }
                let mut entries: Vec<(String, Keys)> = Vec::new();
                std::mem::swap(&mut entries, &mut self.entries);
                entries.push((title, key));
                self.entries = entries;
            },
        }
    }

    /// The (title, key) pairs, each title once.
    pub fn entries(&self) -> (r: &Vec<(String, Keys)>)
        ensures
            entries_map(r@) == self@,
            distinct_titles(r@),
    {
        proof {
            use_type_invariant(self);
        }
        &self.entries
    }
}

proof fn lemma_entries_len<K>(e: Seq<(String, K)>)
    requires
        distinct_titles(e),
    ensures
        entries_map(e).dom().finite(),
        entries_map(e).len() == e.len(),
    decreases e.len(),
{
    if e.len() > 0 {
        let p = e.drop_last();
        assert(distinct_titles(p));
        lemma_entries_len(p);
        lemma_entries_map_lookup(p, e.last().0@);
        assert(!entries_map(p).contains_key(e.last().0@)) by {
            if entries_map(p).contains_key(e.last().0@) {
                let i = choose|i: int| 0 <= i < p.len() && (#[trigger] p[i]).0@ == e.last().0@;
                assert(e[i].0@ != e[e.len() - 1].0@);
            }
        }
    }
}

/// A title read back after it was set gives the key it was set to, and the
/// other titles keep theirs.
pub proof fn lemma_get_after_insert<K>(d: Map<Seq<char>, K>, t: Seq<char>, k: K, other: Seq<char>)
    ensures
        d.insert(t, k).contains_key(t),
        d.insert(t, k)[t] == k,
        other != t ==> d.insert(t, k).contains_key(other) == d.contains_key(other),
        other != t && d.contains_key(other) ==> d.insert(t, k)[other] == d[other],
{
}

} // verus!
