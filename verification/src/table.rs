//! Tables keyed by strings, held as vectors of entries: the last entry for a key
//! text gives its value, and the operations here keep each key text to one entry.
use crate::domain::entities::map::{entries_map, lemma_entries_dom, lemma_entries_push, lemma_entries_remove, lemma_entries_update, lemma_entries_value};
use vstd::prelude::*;

verus! {

/// Entries keyed by the text of their strings.
pub open spec fn key_views<V>(s: Seq<(String, V)>) -> Seq<(Seq<char>, V)> {
    s.map_values(|e: (String, V)| (e.0@, e.1))
}

/// The table that string-keyed entries describe.
pub open spec fn str_table<V>(s: Seq<(String, V)>) -> Map<Seq<char>, V> {
    entries_map(key_views(s))
}

/// No key text occurs twice among the entries.
pub open spec fn views_unique<V>(s: Seq<(String, V)>) -> bool {
    forall|a: int, b: int| 0 <= a < b < s.len() ==> (#[trigger] s[a]).0@ != (#[trigger] s[b]).0@
}

/// The last entry with key text `key`, if any.
pub(crate) fn find_key<V>(s: &Vec<(String, V)>, key: &String) -> (r: Option<usize>)
    ensures
        r matches Some(i) ==> i < s@.len() && s@[i as int].0@ == key@
            && forall|j: int| i < j < s@.len() ==> (#[trigger] s@[j]).0@ != key@,
        r is None ==> forall|j: int| 0 <= j < s@.len() ==> (#[trigger] s@[j]).0@ != key@,
{
    let mut i = s.len();
    while i > 0
        invariant
            i <= s@.len(),
            forall|j: int| i <= j < s@.len() ==> (#[trigger] s@[j]).0@ != key@,
        decreases i,
    {
        let k = i - 1;
        if s[k].0 == *key {
            return Some(k);
        }
        i = k;
    }
    None
}

/// Set the value of a key, adding the key when it is missing.
pub(crate) fn insert_key<V>(s: &mut Vec<(String, V)>, key: String, v: V)
    ensures
        str_table(final(s)@) == str_table(old(s)@).insert(key@, v),
        views_unique(old(s)@) ==> views_unique(final(s)@),
{
    let ghost before = s@;
    let ghost kb = key_views(before);
    match find_key(s, &key) {
        Some(i) => {
            proof {
                assert(kb[i as int] == (key@, before[i as int].1));
                assert forall|j: int| i < j < kb.len() implies (#[trigger] kb[j]).0 != kb[i as int].0 by {
                    assert(kb[j].0 == before[j].0@);
                }
                lemma_entries_update(kb, i as int, v);
            }
            s.set(i, (key, v));
            proof {
                assert(key_views(s@) =~= kb.update(i as int, (kb[i as int].0, v)));
                assert(views_unique(before) ==> views_unique(s@)) by {
                    if views_unique(before) {
                        assert forall|a: int, b: int| 0 <= a < b < s@.len() implies (#[trigger] s@[a]).0@ != (#[trigger] s@[b]).0@ by {
                            assert(before[a].0@ != before[b].0@);
                        }
                    }
                }
            }
        },
        None => {
            let ghost k = key@;
            s.push((key, v));
            proof {
                assert(key_views(s@) =~= kb.push((k, v)));
                lemma_entries_push(kb, (k, v));
                assert(views_unique(before) ==> views_unique(s@)) by {
                    if views_unique(before) {
                        assert forall|a: int, b: int| 0 <= a < b < s@.len() implies (#[trigger] s@[a]).0@ != (#[trigger] s@[b]).0@ by {
                            if b < before.len() {
                                assert(before[a].0@ != before[b].0@);
                            } else {
                                assert(before[a].0@ != k);
                            }
                        }
                    }
                }
            }
        },
    }
}

/// Drop a key.
pub(crate) fn remove_key<V>(s: &mut Vec<(String, V)>, key: &String)
    requires
        views_unique(old(s)@),
    ensures
        str_table(final(s)@) == str_table(old(s)@).remove(key@),
        views_unique(final(s)@),
{
    let ghost before = s@;
    let ghost kb = key_views(before);
    match find_key(s, key) {
        Some(i) => {
            proof {
                assert forall|a: int, b: int| 0 <= a < b < kb.len() implies (#[trigger] kb[a]).0 != (#[trigger] kb[b]).0 by {
                    assert(before[a].0@ != before[b].0@);
                }
                lemma_entries_remove(kb, i as int);
            }
            s.remove(i);
            proof {
                assert(key_views(s@) =~= kb.remove(i as int));
                assert forall|a: int, b: int| 0 <= a < b < s@.len() implies (#[trigger] s@[a]).0@ != (#[trigger] s@[b]).0@ by {
                    let a0 = if a < i { a } else { a + 1 };
                    let b0 = if b < i { b } else { b + 1 };
                    assert(s@[a] == before[a0] && s@[b] == before[b0]);
                    assert(before[a0].0@ != before[b0].0@);
                }
            }
        },
        None => {
            proof {
                lemma_entries_dom(kb, key@);
                if exists|j: int| 0 <= j < kb.len() && (#[trigger] kb[j]).0 == key@ {
                    let j = choose|j: int| 0 <= j < kb.len() && (#[trigger] kb[j]).0 == key@;
                    assert(before[j].0@ != key@);
                }
                assert(str_table(before).remove(key@) =~= str_table(before));
            }
        },
    }
}

/// The value of a key, if present.
pub(crate) fn lookup_key<V: Copy>(s: &Vec<(String, V)>, key: &String) -> (r: Option<V>)
    ensures
        r is Some <==> str_table(s@).dom().contains(key@),
        r matches Some(v) ==> v == str_table(s@)[key@],
{
    let ghost kb = key_views(s@);
    proof {
        lemma_entries_dom(kb, key@);
    }
    match find_key(s, key) {
        Some(i) => {
            proof {
                assert forall|j: int| i < j < kb.len() implies (#[trigger] kb[j]).0 != kb[i as int].0 by {
                    assert(kb[j].0 == s@[j].0@);
                }
                lemma_entries_value(kb, i as int);
            }
            Some(s[i].1)
        },
        None => {
            proof {
                if exists|j: int| 0 <= j < kb.len() && (#[trigger] kb[j]).0 == key@ {
                    let j = choose|j: int| 0 <= j < kb.len() && (#[trigger] kb[j]).0 == key@;
                    assert(s@[j].0@ != key@);
                }
            }
            None
        },
    }
}

/// Distinct key strings give distinct key texts among the entries' views.
pub(crate) proof fn lemma_unique_key_views<V>(s: Seq<(String, V)>)
    requires
        views_unique(s),
    ensures
        forall|a: int, b: int| 0 <= a < b < key_views(s).len() ==> (#[trigger] key_views(s)[a]).0 != (#[trigger] key_views(s)[b]).0,
{
    assert forall|a: int, b: int| 0 <= a < b < key_views(s).len() implies (#[trigger] key_views(s)[a]).0 != (#[trigger] key_views(s)[b]).0 by {
        assert(s[a].0@ != s[b].0@);
    }
}

/// With each key once, the entry at `i` is in the table.
pub(crate) proof fn lemma_table_at<V>(s: Seq<(String, V)>, i: int)
    requires
        views_unique(s),
        0 <= i < s.len(),
    ensures
        str_table(s).dom().contains(s[i].0@),
        str_table(s)[s[i].0@] == s[i].1,
{
    let kv = key_views(s);
    assert forall|j: int| i < j < kv.len() implies (#[trigger] kv[j]).0 != kv[i].0 by {
        assert(s[i].0@ != s[j].0@);
    }
    lemma_entries_value(kv, i);
}

/// A key text that no entry has is not in the table.
pub(crate) proof fn lemma_table_missing<V>(s: Seq<(String, V)>, k: Seq<char>)
    requires
        forall|j: int| 0 <= j < s.len() ==> (#[trigger] s[j]).0@ != k,
    ensures
        !str_table(s).dom().contains(k),
{
    let kv = key_views(s);
    lemma_entries_dom(kv, k);
    if exists|j: int| 0 <= j < kv.len() && (#[trigger] kv[j]).0 == k {
        let j = choose|j: int| 0 <= j < kv.len() && (#[trigger] kv[j]).0 == k;
        assert(s[j].0@ != k);
    }
}

/// With each key once, the table has as many keys as there are entries.
pub(crate) proof fn lemma_table_len<V>(s: Seq<(String, V)>)
    requires
        views_unique(s),
    ensures
        str_table(s).dom().finite(),
        str_table(s).dom().len() == s.len(),
    decreases s.len(),
{
    if s.len() > 0 {
        let t = s.drop_last();
        assert(views_unique(t)) by {
            assert forall|a: int, b: int| 0 <= a < b < t.len() implies (#[trigger] t[a]).0@ != (#[trigger] t[b]).0@ by {
                assert(s[a].0@ != s[b].0@);
            }
        }
        lemma_table_len(t);
        let e = s.last();
        assert(key_views(s) =~= key_views(t).push((e.0@, e.1)));
        lemma_entries_push(key_views(t), (e.0@, e.1));
        assert forall|j: int| 0 <= j < t.len() implies (#[trigger] t[j]).0@ != e.0@ by {
            assert(s[j].0@ != s[s.len() - 1].0@);
        }
        lemma_table_missing(t, e.0@);
    } else {
        assert(str_table(s).dom() =~= Set::<Seq<char>>::empty());
    }
}

/// A table from strings to values, each key text held once.
pub struct StrTable<T> {
    entries: Vec<(String, T)>,
}

impl<T> View for StrTable<T> {
    type V = Map<Seq<char>, T>;

    closed spec fn view(&self) -> Map<Seq<char>, T> {
        str_table(self.entries@)
    }
}

impl<T> StrTable<T> {
    #[verifier::type_invariant]
    spec fn keys_once(&self) -> bool {
        views_unique(self.entries@)
    }

    /// The empty table.
    pub fn new() -> (r: Self)
        ensures
            r@ == Map::<Seq<char>, T>::empty(),
    {
        let r = StrTable { entries: Vec::new() };
        proof {
            assert(key_views(r.entries@) =~= Seq::<(Seq<char>, T)>::empty());
        }
        r
    }

    /// The number of keys.
    pub fn len(&self) -> (r: usize)
        ensures
            self@.dom().finite(),
            r == self@.dom().len(),
    {
        proof {
            use_type_invariant(self);
            lemma_table_len(self.entries@);
        }
        self.entries.len()
    }

    /// Whether `key` is in the table.
    pub fn contains_key(&self, key: &String) -> (r: bool)
        ensures
            r == self@.dom().contains(key@),
    {
        proof { use_type_invariant(self); }
        match find_key(&self.entries, key) {
            Some(i) => {
                proof { lemma_table_at(self.entries@, i as int); }
                true
            },
            None => {
                proof { lemma_table_missing(self.entries@, key@); }
                false
            },
        }
    }

    /// The value of `key`, if present.
    pub fn get(&self, key: &String) -> (r: Option<&T>)
        ensures
            r is Some <==> self@.dom().contains(key@),
            r matches Some(v) ==> *v == self@[key@],
    {
        proof { use_type_invariant(self); }
        match find_key(&self.entries, key) {
            Some(i) => {
                proof { lemma_table_at(self.entries@, i as int); }
                Some(&self.entries[i].1)
            },
            None => {
                proof { lemma_table_missing(self.entries@, key@); }
                None
            },
        }
    }

    /// Set the value of `key`, adding the key when it is missing.
    pub fn insert(&mut self, key: String, value: T)
        ensures
            final(self)@ == old(self)@.insert(key@, value),
    {
        proof { use_type_invariant(&*self); }
        let mut entries: Vec<(String, T)> = Vec::new();
        std::mem::swap(&mut entries, &mut self.entries);
        insert_key(&mut entries, key, value);
        self.entries = entries;
    }

    /// Take `key` out of the table, with its value if it was there.
    pub fn remove(&mut self, key: &String) -> (r: Option<T>)
        ensures
            final(self)@ == old(self)@.remove(key@),
            r is Some <==> old(self)@.dom().contains(key@),
            r matches Some(v) ==> v == old(self)@[key@],
    {
        proof { use_type_invariant(&*self); }
        let mut entries: Vec<(String, T)> = Vec::new();
        std::mem::swap(&mut entries, &mut self.entries);
        let ghost before = entries@;
        let r = match find_key(&entries, key) {
            Some(i) => {
                proof {
                    lemma_table_at(before, i as int);
                    lemma_unique_key_views(before);
                    lemma_entries_remove(key_views(before), i as int);
                }
                let e = entries.remove(i);
                proof {
                    assert(key_views(entries@) =~= key_views(before).remove(i as int));
                    assert forall|a: int, b: int| 0 <= a < b < entries@.len() implies (#[trigger] entries@[a]).0@ != (#[trigger] entries@[b]).0@ by {
                        let a0 = if a < i { a } else { a + 1 };
                        let b0 = if b < i { b } else { b + 1 };
                        assert(entries@[a] == before[a0] && entries@[b] == before[b0]);
                        assert(before[a0].0@ != before[b0].0@);
                    }
                }
                Some(e.1)
            },
            None => {
                proof {
                    lemma_table_missing(before, key@);
                    assert(str_table(before).remove(key@) =~= str_table(before));
                }
                None
            },
        };
        self.entries = entries;
        r
    }

    /// The keys, each once, in the table's order.
    pub fn keys(&self) -> (r: Vec<String>)
        ensures
            forall|a: int, b: int| 0 <= a < b < r@.len() ==> (#[trigger] r@[a])@ != (#[trigger] r@[b])@,
            forall|j: int| 0 <= j < r@.len() ==> self@.dom().contains((#[trigger] r@[j])@),
            forall|k: Seq<char>| #[trigger] self@.dom().contains(k) ==> exists|j: int| 0 <= j < r@.len() && (#[trigger] r@[j])@ == k,
    {
        proof { use_type_invariant(self); }
        let mut r: Vec<String> = Vec::new();
        let mut i: usize = 0;
        while i < self.entries.len()
            invariant
                views_unique(self.entries@),
                i <= self.entries@.len(),
                r@.len() == i,
                forall|j: int| 0 <= j < i ==> (#[trigger] r@[j])@ == self.entries@[j].0@,
            decreases self.entries@.len() - i,
        {
            r.push(self.entries[i].0.clone());
            i = i + 1;
        }
        proof {
            assert forall|a: int, b: int| 0 <= a < b < r@.len() implies (#[trigger] r@[a])@ != (#[trigger] r@[b])@ by {
                assert(r@[a]@ == self.entries@[a].0@ && r@[b]@ == self.entries@[b].0@);
            }
            assert forall|j: int| 0 <= j < r@.len() implies self@.dom().contains((#[trigger] r@[j])@) by {
                assert(r@[j]@ == self.entries@[j].0@);
                lemma_table_at(self.entries@, j);
            }
            assert forall|k: Seq<char>| #[trigger] self@.dom().contains(k) implies exists|j: int| 0 <= j < r@.len() && (#[trigger] r@[j])@ == k by {
                lemma_entries_dom(key_views(self.entries@), k);
                let j = choose|j: int| 0 <= j < key_views(self.entries@).len() && (#[trigger] key_views(self.entries@)[j]).0 == k;
                assert(r@[j]@ == k);
            }
        }
        r
    }
}

} // verus!
