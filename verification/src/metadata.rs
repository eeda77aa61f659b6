//! The authentication/session metadata bag: a map from protocol-defined
//! string keys ("user_agent", "scheme", "principal", "credentials", ...) to
//! scalar values.
//!
//! Values form a small closed sum (string / integer / boolean) rather than
//! an open dynamically-typed value, so nothing unexpected can turn up at
//! send time. The map is never mutated in place by a connect or check call:
//! each call works on its own copy, taken with [`MetadataMap::duplicate`].

use vstd::prelude::*;

verus! {

/// A scalar metadata value.
#[derive(Debug, PartialEq, Eq)]
pub enum MetadataValue {
    Str(String),
    Int(i64),
    Bool(bool),
}

/// The mathematical content of a [`MetadataValue`].
pub enum ValueModel {
    Str(Seq<char>),
    Int(int),
    Bool(bool),
}

impl ValueModel {
    /// True when the value is string-typed.
    pub open spec fn is_string(self) -> bool {
        match self {
            ValueModel::Str(_) => true,
            _ => false,
        }
    }

    /// The character content of a string-typed value.
    pub open spec fn string_content(self) -> Seq<char> {
        match self {
            ValueModel::Str(s) => s,
            _ => Seq::empty(),
        }
    }
}

impl View for MetadataValue {
    type V = ValueModel;

    open spec fn view(&self) -> ValueModel {
        match self {
            MetadataValue::Str(s) => ValueModel::Str(s@),
            MetadataValue::Int(i) => ValueModel::Int(*i as int),
            MetadataValue::Bool(b) => ValueModel::Bool(*b),
        }
    }
}

impl MetadataValue {
    /// An independent copy of this value.
    pub fn duplicate(&self) -> (r: MetadataValue)
        ensures
            r == *self,
    {
        match self {
            MetadataValue::Str(s) => MetadataValue::Str(s.clone()),
            MetadataValue::Int(i) => MetadataValue::Int(*i),
            MetadataValue::Bool(b) => MetadataValue::Bool(*b),
        }
    }
}

/// The map denoted by an association sequence of key/value entries; a later
/// entry for a key overrides an earlier one.
pub open spec fn spec_map_of(s: Seq<(String, MetadataValue)>) -> Map<Seq<char>, ValueModel>
    decreases s.len(),
{
    if s.len() == 0 {
        Map::empty()
    } else {
        spec_map_of(s.drop_last()).insert(s.last().0@, s.last().1@)
    }
}

/// No two entries of the sequence share a key.
pub open spec fn spec_keys_unique(s: Seq<(String, MetadataValue)>) -> bool {
    forall|i: int, j: int| 0 <= i < j < s.len() ==> s[i].0@ != s[j].0@
}

/// An entry's key and value are both present in the denoted map, provided
/// no later entry shadows the key.
proof fn lemma_map_of_index(s: Seq<(String, MetadataValue)>, i: int)
    requires
        spec_keys_unique(s),
        0 <= i < s.len(),
    ensures
        spec_map_of(s).contains_key(s[i].0@),
        spec_map_of(s)[s[i].0@] == s[i].1@,
    decreases s.len(),
{
    if i == s.len() - 1 {
    } else {
        assert(s.drop_last()[i] == s[i]);
        lemma_map_of_index(s.drop_last(), i);
        assert(s[s.len() - 1].0@ != s[i].0@);
    }
}

/// A key occurring in no entry is absent from the denoted map.
proof fn lemma_map_of_absent(s: Seq<(String, MetadataValue)>, k: Seq<char>)
    requires
        forall|i: int| 0 <= i < s.len() ==> s[i].0@ != k,
    ensures
        !spec_map_of(s).contains_key(k),
    decreases s.len(),
{
    if s.len() > 0 {
        assert(forall|i: int| 0 <= i < s.drop_last().len() ==> s.drop_last()[i] == s[i]);
        lemma_map_of_absent(s.drop_last(), k);
    }
}

/// Dropping the entry at position `i` removes exactly its key from the
/// denoted map, and keeps the remaining keys unique.
proof fn lemma_map_of_remove_at(s: Seq<(String, MetadataValue)>, i: int)
    requires
        spec_keys_unique(s),
        0 <= i < s.len(),
    ensures
        spec_map_of(s.remove(i)) == spec_map_of(s).remove(s[i].0@),
        spec_keys_unique(s.remove(i)),
    decreases s.len(),
{
    let k = s[i].0@;
    assert(spec_keys_unique(s.remove(i)));
    if i == s.len() - 1 {
        assert(s.remove(i) =~= s.drop_last());
        assert(forall|j: int| 0 <= j < s.drop_last().len() ==> s.drop_last()[j] == s[j]);
        lemma_map_of_absent(s.drop_last(), k);
        assert(spec_map_of(s.drop_last()).insert(k, s[i].1@).remove(k) =~= spec_map_of(
            s.drop_last(),
        ));
    } else {
        let dl = s.drop_last();
        assert(forall|j: int| 0 <= j < dl.len() ==> dl[j] == s[j]);
        assert(s.remove(i).last() == s.last());
        assert(s.remove(i).drop_last() =~= dl.remove(i));
        lemma_map_of_remove_at(dl, i);
        let lk = s.last().0@;
        let lv = s.last().1@;
        assert(lk != k);
        assert(spec_map_of(dl).remove(k).insert(lk, lv) =~= spec_map_of(dl).insert(
            lk,
            lv,
        ).remove(k));
    }
}

/// The metadata bag itself. Keys are unique; the abstract content is a
/// finite map from key characters to value models.
#[derive(Debug, PartialEq, Eq)]
pub struct MetadataMap {
    entries: Vec<(String, MetadataValue)>,
}

impl View for MetadataMap {
    type V = Map<Seq<char>, ValueModel>;

    closed spec fn view(&self) -> Map<Seq<char>, ValueModel> {
        spec_map_of(self.entries@)
    }
}

impl MetadataMap {
    /// Well-formedness: no key occurs twice.
    pub closed spec fn wf(&self) -> bool {
        spec_keys_unique(self.entries@)
    }

    /// An empty metadata bag.
    pub fn new() -> (r: MetadataMap)
        ensures
            r@ == Map::<Seq<char>, ValueModel>::empty(),
            r.wf(),
    {
        MetadataMap { entries: Vec::new() }
    }

    /// The position of `key` among the entries, if it occurs.
    fn find(&self, key: &String) -> (r: Option<usize>)
        requires
            self.wf(),
        ensures
            match r {
                Some(i) => i < self.entries@.len() && self.entries@[i as int].0@ == key@,
                None => !self@.contains_key(key@),
            },
    {
        let n = self.entries.len();
        for i in 0..n
            invariant
                n == self.entries@.len(),
                forall|j: int| 0 <= j < i ==> self.entries@[j].0@ != key@,
        {
            let pair = &self.entries[i];
            if pair.0 == *key {
                return Some(i);
            }
        }
        proof {
            lemma_map_of_absent(self.entries@, key@);
        }
        None
    }

    /// Looks a key up.
    pub fn get(&self, key: &String) -> (r: Option<&MetadataValue>)
        requires
            self.wf(),
        ensures
            match r {
                Some(v) => self@.contains_key(key@) && v@ == self@[key@],
                None => !self@.contains_key(key@),
            },
    {
        match self.find(key) {
            Some(i) => {
                proof {
                    lemma_map_of_index(self.entries@, i as int);
                }
                Some(&self.entries[i].1)
            },
            None => None,
        }
    }

    /// Whether a key is present.
    pub fn contains_key(&self, key: &String) -> (r: bool)
        requires
            self.wf(),
        ensures
            r == self@.contains_key(key@),
    {
        self.get(key).is_some()
    }

    /// Removes a key, handing back its value if it was present. The rest of
    /// the bag is untouched.
    pub fn remove(&mut self, key: &String) -> (r: Option<MetadataValue>)
        requires
            old(self).wf(),
        ensures
            final(self).wf(),
            match r {
                Some(v) => old(self)@.contains_key(key@) && v@ == old(self)@[key@]
                    && final(self)@ == old(self)@.remove(key@),
                None => !old(self)@.contains_key(key@) && final(self)@ == old(self)@,
            },
    {
        match self.find(key) {
            Some(i) => {
                proof {
                    lemma_map_of_index(self.entries@, i as int);
                    lemma_map_of_remove_at(self.entries@, i as int);
                }
                let (_k, v) = self.entries.remove(i);
                Some(v)
            },
            None => None,
        }
    }

    /// Binds a key to a value, overriding any earlier binding.
    pub fn insert(&mut self, key: String, value: MetadataValue)
        requires
            old(self).wf(),
        ensures
            final(self).wf(),
            final(self)@ == old(self)@.insert(key@, value@),
    {
        let _previous = self.remove(&key);
        proof {
            if !self@.contains_key(key@) {
                lemma_key_nowhere(self.entries@, key@);
            }
            assert(self.entries@.push((key, value)).drop_last() =~= self.entries@);
        }
        let ghost before = self@;
        self.entries.push((key, value));
        proof {
            assert(before.insert(key@, value@) =~= old(self)@.insert(key@, value@));
        }
    }

    /// An independent copy: same content, and later edits to either bag
    /// cannot affect the other.
    pub fn duplicate(&self) -> (r: MetadataMap)
        ensures
            r@ == self@,
            self.wf() ==> r.wf(),
    {
        let n = self.entries.len();
        let mut copied: Vec<(String, MetadataValue)> = Vec::new();
        for i in 0..n
            invariant
                n == self.entries@.len(),
                copied@ == self.entries@.subrange(0, i as int),
        {
            let pair = &self.entries[i];
            copied.push((pair.0.clone(), pair.1.duplicate()));
            proof {
                assert(self.entries@.subrange(0, i + 1) =~= self.entries@.subrange(
                    0,
                    i as int,
                ).push(self.entries@[i as int]));
            }
        }
        proof {
            assert(copied@ =~= self.entries@);
        }
        MetadataMap { entries: copied }
    }

    /// The entries as plain pairs, for conversion at the library's edge.
    /// Their keys are unique and they denote exactly this bag's content.
    pub fn pairs(&self) -> (r: &Vec<(String, MetadataValue)>)
        ensures
            spec_map_of(r@) == self@,
            self.wf() ==> spec_keys_unique(r@),
    {
        &self.entries
    }
}

/// A key absent from the denoted map occurs in no entry of a unique-keyed
/// sequence.
proof fn lemma_key_nowhere(s: Seq<(String, MetadataValue)>, k: Seq<char>)
    requires
        spec_keys_unique(s),
        !spec_map_of(s).contains_key(k),
    ensures
        forall|i: int| 0 <= i < s.len() ==> s[i].0@ != k,
{
    assert forall|i: int| 0 <= i < s.len() implies s[i].0@ != k by {
        if s[i].0@ == k {
            lemma_map_of_index(s, i);
        }
    }
}

} // verus!
