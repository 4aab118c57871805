//! A string-keyed header table: one value per name, names compared exactly,
//! entries kept in the order their names were first inserted.

use vstd::prelude::*;

use crate::text::str_eq;

verus! {

/// The abstract contents of a header table: its entries in order.
pub type HeaderSeq = Seq<(Seq<char>, Seq<char>)>;

/// No name occurs twice among the entries.
pub open spec fn names_distinct(s: HeaderSeq) -> bool {
    forall|i: int, j: int| 0 <= i < j < s.len() ==> s[i].0 != s[j].0
}

/// The entry of `s` named `k` is at position `i`.
pub open spec fn has_name_at(s: HeaderSeq, k: Seq<char>, i: int) -> bool {
    0 <= i < s.len() && s[i].0 == k
}

/// `s` has an entry named `k`.
pub open spec fn has_name(s: HeaderSeq, k: Seq<char>) -> bool {
    exists|i: int| has_name_at(s, k, i)
}

/// The position of the entry named `k` (meaningful when there is one).
pub open spec fn name_index(s: HeaderSeq, k: Seq<char>) -> int {
    choose|i: int| has_name_at(s, k, i)
}

/// The value stored under `k`, if any.
pub open spec fn lookup(s: HeaderSeq, k: Seq<char>) -> Option<Seq<char>> {
    if has_name(s, k) {
        Some(s[name_index(s, k)].1)
    } else {
        None
    }
}

/// The entries after storing `v` under `k`: the entry named `k` gets the new
/// value in place, or a new entry is appended when there is none.
pub open spec fn insert_entry(s: HeaderSeq, k: Seq<char>, v: Seq<char>) -> HeaderSeq {
    if has_name(s, k) {
        s.update(name_index(s, k), (k, v))
    } else {
        s.push((k, v))
    }
}

/// The entries as a map from name to value.
pub open spec fn as_map(s: HeaderSeq) -> Map<Seq<char>, Seq<char>> {
    Map::new(|k: Seq<char>| has_name(s, k), |k: Seq<char>| lookup(s, k).unwrap())
}

/// In a table with distinct names, a name's position is the one it is found at.
pub proof fn lemma_name_index_unique(s: HeaderSeq, k: Seq<char>, i: int)
    requires
        names_distinct(s),
        has_name_at(s, k, i),
    ensures
        has_name(s, k),
        name_index(s, k) == i,
        lookup(s, k) == Some(s[i].1),
{
    let j = name_index(s, k);
    if j < i {
        assert(s[j].0 != s[i].0);
    } else if i < j {
        assert(s[i].0 != s[j].0);
    }
}

/// Inserting keeps names distinct.
pub proof fn lemma_insert_distinct(s: HeaderSeq, k: Seq<char>, v: Seq<char>)
    requires
        names_distinct(s),
    ensures
        names_distinct(insert_entry(s, k, v)),
{
    let t = insert_entry(s, k, v);
    if has_name(s, k) {
        let p = name_index(s, k);
        assert forall|i: int, j: int| 0 <= i < j < t.len() implies t[i].0 != t[j].0 by {
            if i == p {
                assert(s[p].0 == k);
            } else if j == p {
                assert(s[p].0 == k);
            }
        }
    } else {
        assert forall|i: int, j: int| 0 <= i < j < t.len() implies t[i].0 != t[j].0 by {
            if j == s.len() {
                assert(!has_name_at(s, k, i));
            }
        }
    }
}

/// A table of header names and values.
pub struct HeaderList {
    entries: Vec<(String, String)>,
}

impl View for HeaderList {
    type V = HeaderSeq;

    /// The entries, each name and value taken by its characters.
    closed spec fn view(&self) -> HeaderSeq {
        self.entries@.map_values(|e: (String, String)| (e.0@, e.1@))
    }
}

impl HeaderList {
    #[verifier::type_invariant]
    spec fn well_formed(&self) -> bool {
        names_distinct(self@)
    }

    /// An empty table.
    pub fn new() -> (r: Self)
        ensures
            r@ == Seq::<(Seq<char>, Seq<char>)>::empty(),
    {
        let r = HeaderList { entries: Vec::new() };
        assert(r@ =~= Seq::<(Seq<char>, Seq<char>)>::empty());
        r
    }

    /// Number of entries.
    pub fn len(&self) -> (r: usize)
        ensures
            r == self@.len(),
    {
        self.entries.len()
    }

    /// Whether the table has no entry.
    pub fn is_empty(&self) -> (r: bool)
        ensures
            r == (self@.len() == 0),
    {
        self.entries.len() == 0
    }

    /// The position of the entry named `key`, if any.
    fn position(&self, key: &str) -> (r: Option<usize>)
        ensures
            match r {
                Some(i) => has_name_at(self@, key@, i as int),
                None => !has_name(self@, key@),
            },
    {
        let mut i: usize = 0;
        while i < self.entries.len()
            invariant
                i <= self.entries@.len(),
                forall|p: int| 0 <= p < i ==> !has_name_at(self@, key@, p),
            decreases self.entries@.len() - i,
        {
            if str_eq(key, self.entries[i].0.as_str()) {
                return Some(i);
            }
            i += 1;
        }
        None
    }

    /// The value stored under `key` (`HashMap::get`).
    pub fn get(&self, key: &str) -> (r: Option<&String>)
        ensures
            match r {
                Some(v) => lookup(self@, key@) == Some(v@),
                None => lookup(self@, key@) is None,
            },
    {
        proof {
            use_type_invariant(self);
        }
        match self.position(key) {
            Some(i) => {
                proof {
                    lemma_name_index_unique(self@, key@, i as int);
                }
                Some(&self.entries[i].1)
            },
            None => None,
        }
    }

    /// Whether some entry is named `key` (`HashMap::contains_key`).
    pub fn contains_key(&self, key: &str) -> (r: bool)
        ensures
            r == has_name(self@, key@),
    {
        self.position(key).is_some()
    }

    /// Stores `value` under `key`, returning the value it replaces
    /// (`HashMap::insert`).
    pub fn insert(&mut self, key: String, value: String) -> (r: Option<String>)
        ensures
            final(self)@ == insert_entry(old(self)@, key@, value@),
            names_distinct(final(self)@),
            match r {
                Some(v) => lookup(old(self)@, key@) == Some(v@),
                None => lookup(old(self)@, key@) is None,
            },
    {
        proof {
            use_type_invariant(&*self);
            lemma_insert_distinct(self@, key@, value@);
        }
        let ghost old_view = self@;
        let found = self.position(key.as_str());
        let mut entries: Vec<(String, String)> = Vec::new();
        assert(entries@.map_values(|e: (String, String)| (e.0@, e.1@)) =~= Seq::<
            (Seq<char>, Seq<char>),
        >::empty());
        std::mem::swap(&mut entries, &mut self.entries);
        assert(entries@.map_values(|e: (String, String)| (e.0@, e.1@)) == old_view);
        match found {
            Some(i) => {
                proof {
                    lemma_name_index_unique(old_view, key@, i as int);
                }
                let (_, previous) = entries.remove(i);
                entries.insert(i, (key, value));
                assert(entries@.map_values(|e: (String, String)| (e.0@, e.1@)) =~= insert_entry(
                    old_view,
                    key@,
                    value@,
                ));
                self.entries = entries;
                Some(previous)
            },
            None => {
                entries.push((key, value));
                assert(entries@.map_values(|e: (String, String)| (e.0@, e.1@)) =~= insert_entry(
                    old_view,
                    key@,
                    value@,
                ));
                self.entries = entries;
                None
            },
        }
    }

    /// The entries in order.
    pub fn entries(&self) -> (r: &Vec<(String, String)>)
        ensures
            r@.map_values(|e: (String, String)| (e.0@, e.1@)) == self@,
    {
        &self.entries
    }
}

/// Reading a name back after storing it gives the stored value.
pub proof fn law_get_after_insert(s: HeaderSeq, k: Seq<char>, v: Seq<char>)
    requires
        names_distinct(s),
    ensures
        lookup(insert_entry(s, k, v), k) == Some(v),
{
    let t = insert_entry(s, k, v);
    lemma_insert_distinct(s, k, v);
    if has_name(s, k) {
        lemma_name_index_unique(t, k, name_index(s, k));
    } else {
        lemma_name_index_unique(t, k, s.len() as int);
    }
}

/// Storing under one name leaves every other name's value as it was.
pub proof fn law_insert_other_unchanged(s: HeaderSeq, k: Seq<char>, v: Seq<char>, other: Seq<char>)
    requires
        names_distinct(s),
        other != k,
    ensures
        lookup(insert_entry(s, k, v), other) == lookup(s, other),
{
    let t = insert_entry(s, k, v);
    lemma_insert_distinct(s, k, v);
    if has_name(s, other) {
        let i = name_index(s, other);
        lemma_name_index_unique(s, other, i);
        assert(has_name_at(t, other, i));
        lemma_name_index_unique(t, other, i);
    } else {
        assert forall|i: int| !has_name_at(t, other, i) by {
            if 0 <= i < s.len() {
                assert(!has_name_at(s, other, i));
            }
        }
    }
}

/// Storing under a name that is already present keeps the number of
/// entries; storing under a new name adds one.
pub proof fn law_insert_len(s: HeaderSeq, k: Seq<char>, v: Seq<char>)
    ensures
        insert_entry(s, k, v).len() == if has_name(s, k) { s.len() } else { s.len() + 1 },
{
}

} // verus!
