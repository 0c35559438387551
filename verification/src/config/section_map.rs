//! The section-wise exclusion lists of a project: a map from a section key
//! (such as `dev-dependencies` or `dependencies.clap`) to dependency names.

use vstd::prelude::*;

use crate::text::str_equal;

verus! {

/// The key of every entry of `s` is different.
pub open spec fn keys_unique(s: Seq<(String, Vec<String>)>) -> bool {
    forall|i: int, j: int| 0 <= i < j < s.len() ==> s[i].0@ != s[j].0@
}

/// Some entry of `s` has the key `k`.
pub open spec fn has_key(s: Seq<(String, Vec<String>)>, k: Seq<char>) -> bool {
    exists|i: int| 0 <= i < s.len() && s[i].0@ == k
}

/// The map that the entries `s` stand for.
pub open spec fn entries_map(s: Seq<(String, Vec<String>)>) -> Map<Seq<char>, Seq<Seq<char>>> {
    Map::new(
        |k: Seq<char>| has_key(s, k),
        |k: Seq<char>| s[choose|i: int| 0 <= i < s.len() && s[i].0@ == k].1.deep_view(),
    )
}

/// With unique keys, the entry at `i` is what the map holds for its key.
pub proof fn lemma_entries_map_at(s: Seq<(String, Vec<String>)>, i: int)
    requires
        keys_unique(s),
        0 <= i < s.len(),
    ensures
        entries_map(s).contains_key(s[i].0@),
        entries_map(s)[s[i].0@] == s[i].1.deep_view(),
{
    let k = s[i].0@;
    assert(has_key(s, k));
    let j = choose|j: int| 0 <= j < s.len() && s[j].0@ == k;
    if j != i {
        if j < i {
            assert(s[j].0@ != s[i].0@);
        } else {
            assert(s[i].0@ != s[j].0@);
        }
    }
}

/// Appending an entry with a new key adds that key to the map.
pub proof fn lemma_entries_map_push(s: Seq<(String, Vec<String>)>, e: (String, Vec<String>))
    requires
        keys_unique(s),
        !has_key(s, e.0@),
    ensures
        keys_unique(s.push(e)),
        entries_map(s.push(e)) == entries_map(s).insert(e.0@, e.1.deep_view()),
{
    let t = s.push(e);
    assert forall|i: int, j: int| 0 <= i < j < t.len() implies t[i].0@ != t[j].0@ by {
        if j == s.len() {
            assert(s[i].0@ != e.0@);
        } else {
            assert(s[i].0@ != s[j].0@);
        }
    }
    let m = entries_map(s).insert(e.0@, e.1.deep_view());
    assert forall|k: Seq<char>| #[trigger] entries_map(t).contains_key(k) <==> m.contains_key(k) by {
        if has_key(s, k) {
            let i = choose|i: int| 0 <= i < s.len() && s[i].0@ == k;
            assert(t[i].0@ == k);
        }
        if has_key(t, k) && k != e.0@ {
            let i = choose|i: int| 0 <= i < t.len() && t[i].0@ == k;
            assert(i != s.len());
            assert(s[i].0@ == k);
        }
        if k == e.0@ {
            assert(t[s.len() as int].0@ == k);
        }
    }
    assert forall|k: Seq<char>| #[trigger] entries_map(t).contains_key(k) implies entries_map(t)[k]
        == m[k] by {
        let i = choose|i: int| 0 <= i < t.len() && t[i].0@ == k;
        lemma_entries_map_at(t, i);
        if i < s.len() {
            lemma_entries_map_at(s, i);
        }
    }
    assert(entries_map(t) =~= m);
}

/// Replacing the list of the entry at `i` replaces it in the map.
pub proof fn lemma_entries_map_update(s: Seq<(String, Vec<String>)>, i: int, list: Vec<String>)
    requires
        keys_unique(s),
        0 <= i < s.len(),
    ensures
        keys_unique(s.update(i, (s[i].0, list))),
        entries_map(s.update(i, (s[i].0, list))) == entries_map(s).insert(
            s[i].0@,
            list.deep_view(),
        ),
{
    let t = s.update(i, (s[i].0, list));
    assert forall|a: int, b: int| 0 <= a < b < t.len() implies t[a].0@ != t[b].0@ by {
        assert(s[a].0@ != s[b].0@);
    }
    let m = entries_map(s).insert(s[i].0@, list.deep_view());
    assert forall|k: Seq<char>| #[trigger] entries_map(t).contains_key(k) <==> m.contains_key(k) by {
        if has_key(s, k) {
            let j = choose|j: int| 0 <= j < s.len() && s[j].0@ == k;
            assert(t[j].0@ == k);
        }
        if has_key(t, k) {
            let j = choose|j: int| 0 <= j < t.len() && t[j].0@ == k;
            assert(s[j].0@ == k);
        }
        if k == s[i].0@ {
            assert(t[i].0@ == k);
        }
    }
    assert forall|k: Seq<char>| #[trigger] entries_map(t).contains_key(k) implies entries_map(t)[k]
        == m[k] by {
        let j = choose|j: int| 0 <= j < t.len() && t[j].0@ == k;
        lemma_entries_map_at(t, j);
        if j != i {
            lemma_entries_map_at(s, j);
        }
    }
    assert(entries_map(t) =~= m);
}

/// Entries with the same keys and lists, seen through their views, stand
/// for the same map.
pub proof fn lemma_entries_map_views(s: Seq<(String, Vec<String>)>, t: Seq<(String, Vec<String>)>)
    requires
        keys_unique(s),
        s.len() == t.len(),
        forall|i: int|
            0 <= i < s.len() ==> #[trigger] t[i].0@ == s[i].0@ && t[i].1.deep_view()
                == s[i].1.deep_view(),
    ensures
        keys_unique(t),
        entries_map(t) == entries_map(s),
{
    assert forall|a: int, b: int| 0 <= a < b < t.len() implies t[a].0@ != t[b].0@ by {
        assert(s[a].0@ != s[b].0@);
        assert(t[a].0@ == s[a].0@);
        assert(t[b].0@ == s[b].0@);
    }
    assert forall|k: Seq<char>| #[trigger] entries_map(t).contains_key(k) <==> entries_map(
        s,
    ).contains_key(k) by {
        if has_key(s, k) {
            let j = choose|j: int| 0 <= j < s.len() && s[j].0@ == k;
            assert(t[j].0@ == k);
        }
        if has_key(t, k) {
            let j = choose|j: int| 0 <= j < t.len() && t[j].0@ == k;
            assert(s[j].0@ == k);
        }
    }
    assert forall|k: Seq<char>| #[trigger] entries_map(t).contains_key(k) implies entries_map(t)[k]
        == entries_map(s)[k] by {
        let j = choose|j: int| 0 <= j < t.len() && t[j].0@ == k;
        lemma_entries_map_at(t, j);
        lemma_entries_map_at(s, j);
    }
    assert(entries_map(t) =~= entries_map(s));
}

/// A copy of `list`, string by string.
pub fn clone_strings(list: &Vec<String>) -> (copy: Vec<String>)
    ensures
        copy@ == list@,
{
    let mut copy: Vec<String> = Vec::new();
    let mut i: usize = 0;
    while i < list.len()
        invariant
            i <= list.len(),
            copy@ == list@.take(i as int),
        decreases list.len() - i,
    {
        copy.push(list[i].clone());
        i = i + 1;
        assert(copy@ =~= list@.take(i as int));
    }
    assert(list@.take(list.len() as int) =~= list@);
    copy
}

/// Index of the entry of `entries` whose key is `key`.
fn find_key(entries: &Vec<(String, Vec<String>)>, key: &str) -> (found: Option<usize>)
    ensures
        match found {
            Some(i) => i < entries.len() && entries@[i as int].0@ == key@,
            None => !has_key(entries@, key@),
        },
{
    let mut i: usize = 0;
    while i < entries.len()
        invariant
            i <= entries.len(),
            forall|j: int| 0 <= j < i ==> entries@[j].0@ != key@,
        decreases entries.len() - i,
    {
        if str_equal(entries[i].0.as_str(), key) {
            return Some(i);
        }
        i = i + 1;
    }
    None
}

/// Section-wise exclusion lists, keyed by section name; each key occurs once.
#[derive(Debug, Eq)]
pub struct SectionExcludes {
    entries: Vec<(String, Vec<String>)>,
}

impl View for SectionExcludes {
    type V = Map<Seq<char>, Seq<Seq<char>>>;

    closed spec fn view(&self) -> Map<Seq<char>, Seq<Seq<char>>> {
        entries_map(self.entries@)
    }
}

/// The two lists hold the same strings in the same order.
fn strings_equal(a: &Vec<String>, b: &Vec<String>) -> (equal: bool)
    ensures
        equal == (a.deep_view() == b.deep_view()),
{
    if a.len() != b.len() {
        proof {
            assert(a.deep_view().len() != b.deep_view().len());
        }
        return false;
    }
    let mut i: usize = 0;
    while i < a.len()
        invariant
            a.len() == b.len(),
            i <= a.len(),
            forall|j: int| 0 <= j < i ==> a@[j]@ == b@[j]@,
        decreases a.len() - i,
    {
        if a[i] != b[i] {
            proof {
                assert(a.deep_view()[i as int] != b.deep_view()[i as int]);
            }
            return false;
        }
        i = i + 1;
    }
    assert(a.deep_view() =~= b.deep_view());
    true
}

/// Equality of exclusion maps: the same keys with the same lists, in
/// whatever order the keys were added.
impl PartialEq for SectionExcludes {
    fn eq(&self, other: &Self) -> (equal: bool) {
        proof {
            use_type_invariant(self);
            use_type_invariant(other);
        }
        let equal = self.contained_in(other) && other.contained_in(self);
        proof {
            if equal {
                assert(self@ =~= other@);
            }
        }
        equal
    }
}

impl vstd::std_specs::cmp::PartialEqSpecImpl for SectionExcludes {
    open spec fn obeys_eq_spec() -> bool {
        true
    }

    open spec fn eq_spec(&self, other: &Self) -> bool {
        self@ == other@
    }
}

impl Clone for SectionExcludes {
    fn clone(&self) -> (copy: Self)
        ensures
            copy@ == self@,
    {
        proof {
            use_type_invariant(self);
        }
        let mut entries: Vec<(String, Vec<String>)> = Vec::new();
        let mut i: usize = 0;
        while i < self.entries.len()
            invariant
                i <= self.entries.len(),
                entries.len() == i,
                forall|j: int|
                    0 <= j < i ==> #[trigger] entries@[j].0@ == self.entries@[j].0@
                        && entries@[j].1.deep_view() == self.entries@[j].1.deep_view(),
            decreases self.entries.len() - i,
        {
            let key = self.entries[i].0.clone();
            let list = clone_strings(&self.entries[i].1);
            entries.push((key, list));
            i = i + 1;
        }
        proof {
            lemma_entries_map_views(self.entries@, entries@);
        }
        SectionExcludes { entries }
    }
}

impl SectionExcludes {
    #[verifier::type_invariant]
    closed spec fn well_formed(self) -> bool {
        keys_unique(self.entries@)
    }

    /// An empty map.
    pub fn new() -> (map: Self)
        ensures
            map@ == Map::<Seq<char>, Seq<Seq<char>>>::empty(),
    {
        let map = SectionExcludes { entries: Vec::new() };
        assert(map@ =~= Map::<Seq<char>, Seq<Seq<char>>>::empty());
        map
    }

    /// Every key of this map is in `other`, with the same list.
    fn contained_in(&self, other: &Self) -> (contained: bool)
        ensures
            contained == forall|k: Seq<char>|
                #[trigger] self@.contains_key(k) ==> other@.contains_key(k) && other@[k]
                    == self@[k],
    {
        proof {
            use_type_invariant(self);
        }
        let mut i: usize = 0;
        while i < self.entries.len()
            invariant
                keys_unique(self.entries@),
                i <= self.entries.len(),
                forall|j: int|
                    0 <= j < i ==> other@.contains_key(#[trigger] self.entries@[j].0@)
                        && other@[self.entries@[j].0@] == self.entries@[j].1.deep_view(),
            decreases self.entries.len() - i,
        {
            match other.get(self.entries[i].0.as_str()) {
                Some(list) => {
                    if !strings_equal(list, &self.entries[i].1) {
                        proof {
                            lemma_entries_map_at(self.entries@, i as int);
                            let k = self.entries@[i as int].0@;
                            assert(self@.contains_key(k));
                            assert(other@[k] != self@[k]);
                        }
                        return false;
                    }
                },
                None => {
                    proof {
                        lemma_entries_map_at(self.entries@, i as int);
                        let k = self.entries@[i as int].0@;
                        assert(self@.contains_key(k));
                        assert(!other@.contains_key(k));
                    }
                    return false;
                },
            }
            i = i + 1;
        }
        proof {
            assert forall|k: Seq<char>| #[trigger] self@.contains_key(k) implies other@.contains_key(
                k,
            ) && other@[k] == self@[k] by {
                let j = choose|j: int| 0 <= j < self.entries@.len() && self.entries@[j].0@ == k;
                lemma_entries_map_at(self.entries@, j);
            }
        }
        true
    }

    /// Whether the map has no key.
    pub fn is_empty(&self) -> (empty: bool)
        ensures
            empty == (self@.dom() == Set::<Seq<char>>::empty()),
    {
        proof {
            use_type_invariant(self);
        }
        if self.entries.len() == 0 {
            assert(self@.dom() =~= Set::<Seq<char>>::empty());
            true
        } else {
            proof {
                lemma_entries_map_at(self.entries@, 0);
                assert(self@.dom().contains(self.entries@[0].0@));
            }
            false
        }
    }

    /// The list held for `key`, if any.
    pub fn get(&self, key: &str) -> (list: Option<&Vec<String>>)
        ensures
            match list {
                Some(l) => self@.contains_key(key@) && l.deep_view() == self@[key@],
                None => !self@.contains_key(key@),
            },
    {
        proof {
            use_type_invariant(self);
        }
        match find_key(&self.entries, key) {
            Some(i) => {
                proof {
                    lemma_entries_map_at(self.entries@, i as int);
                }
                Some(&self.entries[i].1)
            },
            None => None,
        }
    }

    /// The entries, each key once, for walking the map.
    pub fn entries(&self) -> (entries: &Vec<(String, Vec<String>)>)
        ensures
            keys_unique(entries@),
            self@ == entries_map(entries@),
    {
        proof {
            use_type_invariant(self);
        }
        &self.entries
    }

    /// Sets the list held for `key`.
    pub fn insert(&mut self, key: String, list: Vec<String>)
        ensures
            final(self)@ == old(self)@.insert(key@, list.deep_view()),
    {
        proof {
            use_type_invariant(&*self);
        }
        let mut entries: Vec<(String, Vec<String>)> = Vec::new();
        std::mem::swap(&mut entries, &mut self.entries);
        let ghost before = entries@;
        match find_key(&entries, key.as_str()) {
            Some(i) => {
                let (old_key, _old_list) = entries.remove(i);
                entries.insert(i, (old_key, list));
                proof {
                    assert(entries@ =~= before.update(i as int, (before[i as int].0, list)));
                    lemma_entries_map_update(before, i as int, list);
                }
            },
            None => {
                entries.push((key, list));
                proof {
                    lemma_entries_map_push(before, (key, list));
                }
            },
        }
        self.entries = entries;
    }

    /// Makes sure `key` is present; an absent key gets an empty list.
    pub fn ensure_key(&mut self, key: String)
        ensures
            final(self)@ == (if old(self)@.contains_key(key@) {
                old(self)@
            } else {
                old(self)@.insert(key@, Seq::<Seq<char>>::empty())
            }),
    {
        proof {
            use_type_invariant(&*self);
        }
        let mut entries: Vec<(String, Vec<String>)> = Vec::new();
        std::mem::swap(&mut entries, &mut self.entries);
        let ghost before = entries@;
        match find_key(&entries, key.as_str()) {
            Some(_) => {},
            None => {
                let list: Vec<String> = Vec::new();
                proof {
                    assert(list.deep_view() =~= Seq::<Seq<char>>::empty());
                    lemma_entries_map_push(before, (key, list));
                }
                entries.push((key, list));
            },
        }
        self.entries = entries;
    }

    /// Appends `value` to the list held for `key`, starting from an empty
    /// list where `key` is absent.
    pub fn push_value(&mut self, key: String, value: String)
        ensures
            final(self)@ == old(self)@.insert(
                key@,
                (if old(self)@.contains_key(key@) {
                    old(self)@[key@]
                } else {
                    Seq::<Seq<char>>::empty()
                }).push(value@),
            ),
    {
        proof {
            use_type_invariant(&*self);
        }
        let mut entries: Vec<(String, Vec<String>)> = Vec::new();
        std::mem::swap(&mut entries, &mut self.entries);
        let ghost before = entries@;
        match find_key(&entries, key.as_str()) {
            Some(i) => {
                let (old_key, mut list) = entries.remove(i);
                let ghost old_list = list.deep_view();
                proof {
                    lemma_entries_map_at(before, i as int);
                }
                list.push(value);
                proof {
                    assert(list.deep_view() =~= old_list.push(value@));
                }
                entries.insert(i, (old_key, list));
                proof {
                    assert(entries@ =~= before.update(i as int, (before[i as int].0, list)));
                    lemma_entries_map_update(before, i as int, list);
                }
            },
            None => {
                let mut list: Vec<String> = Vec::new();
                list.push(value);
                proof {
                    assert(list.deep_view() =~= Seq::<Seq<char>>::empty().push(value@));
                    lemma_entries_map_push(before, (key, list));
                }
                entries.push((key, list));
            },
        }
        self.entries = entries;
    }
}

} // verus!
