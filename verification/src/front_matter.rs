//! The front-matter of a page: a flat mapping from string keys to string
//! values, kept as a list of entries in which no key occurs twice.

use vstd::prelude::*;
use vstd::string::*;

verus! {

/// The mapping that a list of entries stands for, a later entry overriding
/// an earlier one under the same key.
pub open spec fn bindings_of(entries: Seq<(Seq<char>, Seq<char>)>) -> Map<Seq<char>, Seq<char>>
    decreases entries.len(),
{
    if entries.len() == 0 {
        Map::empty()
    } else {
        bindings_of(entries.drop_last()).insert(entries.last().0, entries.last().1)
    }
}

/// Whether no key occurs twice in `entries`.
pub open spec fn distinct_keys(entries: Seq<(Seq<char>, Seq<char>)>) -> bool {
    forall|i: int, j: int| 0 <= i < j < entries.len() ==> entries[i].0 != entries[j].0
}

/// A key that no entry holds is not bound.
pub proof fn lemma_unbound(entries: Seq<(Seq<char>, Seq<char>)>, key: Seq<char>)
    requires
        forall|i: int| 0 <= i < entries.len() ==> entries[i].0 != key,
    ensures
        !bindings_of(entries).contains_key(key),
    decreases entries.len(),
{
    if entries.len() > 0 {
        lemma_unbound(entries.drop_last(), key);
    }
}

/// Where no key occurs twice, each entry's key is bound to that entry's
/// value.
pub proof fn lemma_bound(entries: Seq<(Seq<char>, Seq<char>)>, at: int)
    requires
        distinct_keys(entries),
        0 <= at < entries.len(),
    ensures
        bindings_of(entries).contains_key(entries[at].0),
        bindings_of(entries)[entries[at].0] == entries[at].1,
    decreases entries.len(),
{
    if at < entries.len() - 1 {
        lemma_bound(entries.drop_last(), at);
    }
}

/// Where no key occurs twice, giving an entry a new value rebinds its key
/// and nothing else.
pub proof fn lemma_rebound(entries: Seq<(Seq<char>, Seq<char>)>, at: int, value: Seq<char>)
    requires
        distinct_keys(entries),
        0 <= at < entries.len(),
    ensures
        bindings_of(entries.update(at, (entries[at].0, value))) == bindings_of(entries).insert(
            entries[at].0,
            value,
        ),
    decreases entries.len(),
{
    let key = entries[at].0;
    let updated = entries.update(at, (key, value));
    if at == entries.len() - 1 {
        assert(updated.drop_last() =~= entries.drop_last());
        assert(bindings_of(updated) =~= bindings_of(entries).insert(key, value));
    } else {
        lemma_rebound(entries.drop_last(), at, value);
        assert(updated.drop_last() =~= entries.drop_last().update(at, (key, value)));
        assert(bindings_of(updated) =~= bindings_of(entries).insert(key, value));
    }
}

/// A flat mapping from string keys to string values.
#[derive(Debug)]
pub struct FrontMatter {
    entries: Vec<(String, String)>,
}

impl View for FrontMatter {
    type V = Map<Seq<char>, Seq<char>>;

    closed spec fn view(&self) -> Map<Seq<char>, Seq<char>> {
        bindings_of(self.entries.deep_view())
    }
}

impl FrontMatter {
    #[verifier::type_invariant]
    spec fn well_formed(self) -> bool {
        distinct_keys(self.entries.deep_view())
    }

    /// The mapping that binds nothing.
    pub fn new() -> (bindings: FrontMatter)
        ensures
            bindings@ == Map::<Seq<char>, Seq<char>>::empty(),
    {
        FrontMatter { entries: Vec::new() }
    }

    /// The index of the entry that holds `key`, where one does.
    fn position(&self, key: &String) -> (at: Option<usize>)
        ensures
            match at {
                Some(at) => at < self.entries.len() && self.entries.deep_view()[at as int].0
                    == key@,
                None => forall|i: int|
                    0 <= i < self.entries.len() ==> self.entries.deep_view()[i].0 != key@,
            },
    {
        let mut at: usize = 0;
        while at < self.entries.len()
            invariant
                at <= self.entries.len(),
                forall|i: int| 0 <= i < at ==> self.entries.deep_view()[i].0 != key@,
            decreases self.entries.len() - at,
        {
            if self.entries[at].0 == *key {
                return Some(at);
            }
            at += 1;
        }
        None
    }

    /// The value bound to `key`, where one is.
    pub fn get(&self, key: &str) -> (value: Option<&String>)
        ensures
            match value {
                Some(value) => self@.contains_key(key@) && self@[key@] == value@,
                None => !self@.contains_key(key@),
            },
    {
        let key = String::from_str(key);
        match self.position(&key) {
            Some(at) => {
                proof {
                    use_type_invariant(self);
                    lemma_bound(self.entries.deep_view(), at as int);
                }
                Some(&self.entries[at].1)
            },
            None => {
                proof {
                    lemma_unbound(self.entries.deep_view(), key@);
                }
                None
            },
        }
    }

    /// The mapping with `key` bound to `value`, in place of what `key` was
    /// bound to before.
    pub fn insert(self, key: String, value: String) -> (bound: FrontMatter)
        ensures
            bound@ == self@.insert(key@, value@),
    {
        proof {
            use_type_invariant(&self);
        }
        let ghost before = self.entries.deep_view();
        let found = self.position(&key);
        let mut entries = self.entries;
        match found {
            Some(at) => {
                proof {
                    lemma_rebound(before, at as int, value@);
                }
                entries.set(at, (key, value));
                assert(entries.deep_view() =~= before.update(at as int, (key@, value@)));
            },
            None => {
                entries.push((key, value));
                assert(entries.deep_view() =~= before.push((key@, value@)));
                assert(entries.deep_view().drop_last() =~= before);
            },
        }
        assert(distinct_keys(entries.deep_view()));
        FrontMatter { entries }
    }

    /// The mapping that `entries` stand for, a later entry overriding an
    /// earlier one under the same key.
    pub fn from_entries(entries: &Vec<(String, String)>) -> (bindings: FrontMatter)
        ensures
            bindings@ == bindings_of(entries.deep_view()),
    {
        let mut bindings = FrontMatter::new();
        let mut at: usize = 0;
        while at < entries.len()
            invariant
                at <= entries.len(),
                bindings@ == bindings_of(entries.deep_view().take(at as int)),
            decreases entries.len() - at,
        {
            assert(entries.deep_view().take(at + 1).drop_last() =~= entries.deep_view().take(
                at as int,
            ));
            bindings = bindings.insert(entries[at].0.clone(), entries[at].1.clone());
            at += 1;
        }
        assert(entries.deep_view().take(at as int) =~= entries.deep_view());
        bindings
    }

    /// The entries of the mapping, no key twice, in no particular order.
    pub fn entries(&self) -> (entries: &Vec<(String, String)>)
        ensures
            bindings_of(entries.deep_view()) == self@,
            distinct_keys(entries.deep_view()),
    {
        proof {
            use_type_invariant(self);
        }
        &self.entries
    }
}

} // verus!
