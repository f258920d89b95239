//! Label sets: finite maps from label keys to label values.
//!
//! A [`Labels`] value is viewed as a `Map<Seq<char>, Seq<char>>`; every
//! contract in this module is stated over that map.

use crate::text::{ends_with, is_suffix, str_eq};
use vstd::prelude::*;

verus! {

/// One `key = value` pair.
#[derive(Debug)]
pub struct Label {
    pub key: String,
    pub value: String,
}

impl Clone for Label {
    fn clone(&self) -> (copy: Self)
        ensures
            copy == *self,
    {
        Label { key: self.key.clone(), value: self.value.clone() }
    }
}

/// The map built by inserting `entries` one after the other: where two
/// entries share a key, the later one stays.
pub open spec fn label_map(entries: Seq<Label>) -> Map<Seq<char>, Seq<char>>
    decreases entries.len(),
{
    if entries.len() == 0 {
        Map::empty()
    } else {
        label_map(entries.drop_last()).insert(entries.last().key@, entries.last().value@)
    }
}

/// The suffix that marks a label key as generated by a rollout.
pub open spec fn hash_suffix() -> Seq<char> {
    seq!['-', 'h', 'a', 's', 'h']
}

/// A key that ends in `-hash`; such keys change from one rollout to the next.
pub open spec fn is_hash_key(key: Seq<char>) -> bool {
    is_suffix(hash_suffix(), key)
}

/// `labels` without its hash keys; every other key keeps its value.
pub open spec fn stable_labels(labels: Map<Seq<char>, Seq<char>>) -> Map<Seq<char>, Seq<char>> {
    labels.restrict(Set::new(|key: Seq<char>| !is_hash_key(key)))
}

/// No key of `stable_labels(labels)` is a hash key, and every other key of
/// `labels` is in it with the value it had.
pub proof fn lemma_stable_labels(labels: Map<Seq<char>, Seq<char>>)
    ensures
        forall|key: Seq<char>|
            is_hash_key(key) ==> !#[trigger] stable_labels(labels).contains_key(key),
        forall|key: Seq<char>|
            !is_hash_key(key) ==> (#[trigger] stable_labels(labels).contains_key(key)
                <==> labels.contains_key(key)),
        forall|key: Seq<char>| #[trigger]
            stable_labels(labels).contains_key(key) ==> stable_labels(labels)[key] == labels[key],
        stable_labels(labels).submap_of(labels),
{
}

spec fn keys_distinct(entries: Seq<Label>) -> bool {
    forall|i: int, j: int|
        0 <= i < j < entries.len() ==> (#[trigger] entries[i]).key@ != (#[trigger] entries[j]).key@
}

proof fn lemma_label_map_keys(entries: Seq<Label>)
    ensures
        label_map(entries).dom().finite(),
        label_map(entries).len() <= entries.len(),
        forall|key: Seq<char>|
            label_map(entries).contains_key(key) <==> exists|i: int|
                0 <= i < entries.len() && (#[trigger] entries[i]).key@ == key,
    decreases entries.len(),
{
    if entries.len() > 0 {
        let front = entries.drop_last();
        lemma_label_map_keys(front);
        assert forall|key: Seq<char>|
            label_map(entries).contains_key(key) <==> exists|i: int|
                0 <= i < entries.len() && (#[trigger] entries[i]).key@ == key by {
            if label_map(entries).contains_key(key) {
                if key == entries.last().key@ {
                    assert(entries[entries.len() - 1].key@ == key);
                } else {
                    let i = choose|i: int| 0 <= i < front.len() && (#[trigger] front[i]).key@ == key;
                    assert(entries[i].key@ == key);
                }
            }
            if exists|i: int| 0 <= i < entries.len() && (#[trigger] entries[i]).key@ == key {
                let i = choose|i: int| 0 <= i < entries.len() && (#[trigger] entries[i]).key@ == key;
                if i < front.len() {
                    assert(front[i].key@ == key);
                }
            }
        }
    }
}

proof fn lemma_label_map_distinct(entries: Seq<Label>)
    requires
        keys_distinct(entries),
    ensures
        label_map(entries).len() == entries.len(),
        forall|i: int|
            0 <= i < entries.len() ==> label_map(entries)[(#[trigger] entries[i]).key@]
                == entries[i].value@,
    decreases entries.len(),
{
    if entries.len() > 0 {
        let front = entries.drop_last();
        let last = entries.last();
        assert(keys_distinct(front)) by {
            assert forall|i: int, j: int| 0 <= i < j < front.len() implies (#[trigger] front[i]).key@
                != (#[trigger] front[j]).key@ by {
                assert(entries[i].key@ != entries[j].key@);
            }
        }
        lemma_label_map_distinct(front);
        lemma_label_map_keys(front);
        assert(!label_map(front).contains_key(last.key@)) by {
            if label_map(front).contains_key(last.key@) {
                let i = choose|i: int| 0 <= i < front.len() && (#[trigger] front[i]).key@ == last.key@;
                assert(entries[i].key@ != entries[entries.len() - 1].key@);
            }
        }
        assert forall|i: int| 0 <= i < entries.len() implies
            label_map(entries)[(#[trigger] entries[i]).key@] == entries[i].value@ by {
            if i < front.len() {
                assert(front[i].key@ == entries[i].key@);
                assert(entries[i].key@ != entries[entries.len() - 1].key@);
            }
        }
    }
}

proof fn lemma_label_map_replace(entries: Seq<Label>, at: int, entry: Label)
    requires
        keys_distinct(entries),
        0 <= at < entries.len(),
        entries[at].key@ == entry.key@,
    ensures
        keys_distinct(entries.update(at, entry)),
        label_map(entries.update(at, entry)) == label_map(entries).insert(entry.key@, entry.value@),
{
    let after = entries.update(at, entry);
    assert(keys_distinct(after)) by {
        assert forall|i: int, j: int| 0 <= i < j < after.len() implies
            (#[trigger] after[i]).key@ != (#[trigger] after[j]).key@ by {
            assert(entries[i].key@ != entries[j].key@);
        }
    }
    lemma_label_map_keys(entries);
    lemma_label_map_keys(after);
    lemma_label_map_distinct(entries);
    lemma_label_map_distinct(after);
    let expected = label_map(entries).insert(entry.key@, entry.value@);
    assert forall|key: Seq<char>| label_map(after).contains_key(key) <==> expected.contains_key(
        key,
    ) by {
        if label_map(after).contains_key(key) {
            let i = choose|i: int| 0 <= i < after.len() && (#[trigger] after[i]).key@ == key;
            assert(entries[i].key@ == key);
        }
        if expected.contains_key(key) {
            if key == entry.key@ {
                assert(after[at].key@ == key);
            } else {
                let i = choose|i: int| 0 <= i < entries.len() && (#[trigger] entries[i]).key@ == key;
                assert(after[i].key@ == key);
            }
        }
    }
    assert forall|key: Seq<char>| label_map(after).contains_key(key) implies label_map(after)[key]
        == expected[key] by {
        let i = choose|i: int| 0 <= i < after.len() && (#[trigger] after[i]).key@ == key;
        assert(label_map(after)[after[i].key@] == after[i].value@);
        if i != at {
            assert(label_map(entries)[entries[i].key@] == entries[i].value@);
            assert(entries[i].key@ != entries[at].key@);
        }
    }
    assert(label_map(after) =~= expected);
}

proof fn lemma_label_map_push(entries: Seq<Label>, entry: Label)
    ensures
        label_map(entries.push(entry)) == label_map(entries).insert(entry.key@, entry.value@),
{
    assert(entries.push(entry).drop_last() =~= entries);
}

/// The index of the entry with key `key`, if there is one.
fn position_of(entries: &Vec<Label>, key: &str) -> (found: Option<usize>)
    ensures
        match found {
            Some(i) => i < entries@.len() && entries@[i as int].key@ == key@,
            None => forall|i: int| 0 <= i < entries@.len() ==> (#[trigger] entries@[i]).key@ != key@,
        },
{
    let mut i: usize = 0;
    while i < entries.len()
        invariant
            i <= entries@.len(),
            forall|j: int| 0 <= j < i ==> (#[trigger] entries@[j]).key@ != key@,
        decreases entries@.len() - i,
    {
        if str_eq(entries[i].key.as_str(), key) {
            return Some(i);
        }
        i += 1;
    }
    None
}

/// A finite map from label keys to label values.
#[derive(Debug)]
pub struct Labels {
    entries: Vec<Label>,
}

impl View for Labels {
    type V = Map<Seq<char>, Seq<char>>;

    closed spec fn view(&self) -> Map<Seq<char>, Seq<char>> {
        label_map(self.entries@)
    }
}

impl Labels {
    #[verifier::type_invariant]
    spec fn no_key_twice(&self) -> bool {
        keys_distinct(self.entries@)
    }

    /// The empty label set.
    pub fn new() -> (labels: Labels)
        ensures
            labels@ == Map::<Seq<char>, Seq<char>>::empty(),
    {
        Labels { entries: Vec::new() }
    }

    /// Every label set is finite.
    pub proof fn lemma_finite(self)
        ensures
            self@.dom().finite(),
    {
        lemma_label_map_keys(self.entries@);
    }

    /// The number of keys.
    pub fn len(&self) -> (count: usize)
        ensures
            count == self@.len(),
            self@.dom().finite(),
    {
        proof {
            use_type_invariant(self);
            lemma_label_map_keys(self.entries@);
            lemma_label_map_distinct(self.entries@);
        }
        self.entries.len()
    }

    /// Whether there is no key at all.
    pub fn is_empty(&self) -> (empty: bool)
        ensures
            empty == (self@ == Map::<Seq<char>, Seq<char>>::empty()),
    {
        proof {
            lemma_label_map_keys(self.entries@);
            if self.entries@.len() > 0 {
                assert(self@.contains_key(self.entries@[0].key@));
            } else {
                assert(self@ =~= Map::<Seq<char>, Seq<char>>::empty());
            }
        }
        self.entries.len() == 0
    }

    /// The value stored under `key`.
    pub fn get(&self, key: &str) -> (value: Option<&String>)
        ensures
            match value {
                Some(v) => self@.contains_key(key@) && v@ == self@[key@],
                None => !self@.contains_key(key@),
            },
    {
        proof {
            use_type_invariant(self);
            lemma_label_map_keys(self.entries@);
            lemma_label_map_distinct(self.entries@);
        }
        match position_of(&self.entries, key) {
            Some(i) => Some(&self.entries[i].value),
            None => None,
        }
    }

    /// Whether `key` has a value.
    pub fn contains_key(&self, key: &str) -> (present: bool)
        ensures
            present == self@.contains_key(key@),
    {
        self.get(key).is_some()
    }

    /// Stores `value` under `key`, replacing the value that `key` had.
    pub fn insert(&mut self, key: String, value: String)
        ensures
            final(self)@ == old(self)@.insert(key@, value@),
    {
        proof {
            use_type_invariant(&*self);
        }
        let mut entries: Vec<Label> = Vec::new();
        std::mem::swap(&mut entries, &mut self.entries);
        let found = position_of(&entries, key.as_str());
        let entry = Label { key, value };
        match found {
            Some(i) => {
                proof {
                    lemma_label_map_replace(entries@, i as int, entry);
                }
                entries.set(i, entry);
            },
            None => {
                proof {
                    lemma_label_map_push(entries@, entry);
                    assert(keys_distinct(entries@.push(entry)));
                }
                entries.push(entry);
            },
        }
        self.entries = entries;
    }

    /// Whether every label of `self` is a label of `other`, with the same
    /// value. `other` may hold more.
    pub fn is_subset_of(&self, other: &Labels) -> (included: bool)
        ensures
            included == self@.submap_of(other@),
    {
        proof {
            use_type_invariant(self);
            lemma_label_map_keys(self.entries@);
            lemma_label_map_distinct(self.entries@);
        }
        let mut i: usize = 0;
        while i < self.entries.len()
            invariant
                i <= self.entries@.len(),
                forall|j: int|
                    0 <= j < self.entries@.len() ==> self@.contains_key(
                        (#[trigger] self.entries@[j]).key@,
                    ) && self@[self.entries@[j].key@] == self.entries@[j].value@,
                forall|j: int|
                    0 <= j < i ==> other@.contains_key((#[trigger] self.entries@[j]).key@)
                        && other@[self.entries@[j].key@] == self.entries@[j].value@,
            decreases self.entries@.len() - i,
        {
            let entry = &self.entries[i];
            let same = match other.get(entry.key.as_str()) {
                Some(value) => *value == entry.value,
                None => false,
            };
            if !same {
                assert(self@.dom().contains(entry.key@));
                return false;
            }
            i += 1;
        }
        proof {
            assert forall|key: Seq<char>| #[trigger] self@.dom().contains(key) implies other@.dom().contains(
                key,
            ) && self@[key] == other@[key] by {
                let j = choose|j: int|
                    0 <= j < self.entries@.len() && (#[trigger] self.entries@[j]).key@ == key;
                assert(other@.contains_key(self.entries@[j].key@));
            }
        }
        true
    }

    /// The labels whose key does not end in `-hash`.
    pub fn without_hash_keys(&self) -> (kept: Labels)
        ensures
            kept@ == stable_labels(self@),
    {
        let mut kept = Labels::new();
        let mut i: usize = 0;
        assert(self.entries@.take(0) =~= Seq::<Label>::empty());
        assert(kept@ =~= stable_labels(label_map(self.entries@.take(0))));
        while i < self.entries.len()
            invariant
                i <= self.entries@.len(),
                kept@ == stable_labels(label_map(self.entries@.take(i as int))),
            decreases self.entries@.len() - i,
        {
            let entry = &self.entries[i];
            proof {
                let before = self.entries@.take(i as int);
                assert(self.entries@.take(i + 1).drop_last() =~= before);
                reveal_strlit("-hash");
                assert("-hash"@ =~= hash_suffix());
            }
            if !ends_with(entry.key.as_str(), "-hash") {
                kept.insert(entry.key.clone(), entry.value.clone());
            }
            assert(kept@ =~= stable_labels(label_map(self.entries@.take(i + 1))));
            i += 1;
        }
        assert(self.entries@.take(i as int) =~= self.entries@);
        kept
    }

    /// The label set that holds `entries`; where two of them share a key,
    /// the later one stays.
    pub fn from_entries(entries: Vec<Label>) -> (labels: Labels)
        ensures
            labels@ == label_map(entries@),
    {
        let mut labels = Labels::new();
        let mut i: usize = 0;
        assert(entries@.take(0) =~= Seq::<Label>::empty());
        while i < entries.len()
            invariant
                i <= entries@.len(),
                labels@ == label_map(entries@.take(i as int)),
            decreases entries@.len() - i,
        {
            proof {
                assert(entries@.take(i + 1).drop_last() =~= entries@.take(i as int));
            }
            labels.insert(entries[i].key.clone(), entries[i].value.clone());
            i += 1;
        }
        assert(entries@.take(i as int) =~= entries@);
        labels
    }

    /// The labels as a list of pairs, each key once.
    pub fn to_entries(&self) -> (entries: Vec<Label>)
        ensures
            label_map(entries@) == self@,
            entries@.len() == self@.len(),
    {
        proof {
            use_type_invariant(self);
            lemma_label_map_keys(self.entries@);
            lemma_label_map_distinct(self.entries@);
        }
        let mut entries: Vec<Label> = Vec::new();
        let mut i: usize = 0;
        while i < self.entries.len()
            invariant
                i <= self.entries@.len(),
                entries@ == self.entries@.take(i as int),
            decreases self.entries@.len() - i,
        {
            entries.push(self.entries[i].clone());
            assert(entries@ =~= self.entries@.take(i + 1));
            i += 1;
        }
        assert(self.entries@.take(i as int) =~= self.entries@);
        entries
    }
}

impl Clone for Labels {
    fn clone(&self) -> (copy: Self)
        ensures
            copy@ == self@,
    {
        proof {
            use_type_invariant(self);
        }
        let mut entries: Vec<Label> = Vec::new();
        let mut i: usize = 0;
        while i < self.entries.len()
            invariant
                i <= self.entries@.len(),
                entries@ == self.entries@.take(i as int),
            decreases self.entries@.len() - i,
        {
            entries.push(self.entries[i].clone());
            assert(entries@ =~= self.entries@.take(i + 1));
            i += 1;
        }
        assert(self.entries@.take(i as int) =~= self.entries@);
        Labels { entries }
    }
}

} // verus!
