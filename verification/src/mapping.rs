//! The mapping from sub-ids to records that each address owns.
//!
//! A record is the text of a JSON document. This crate never looks inside
//! it: it stores it and hands it back as it came.

use vstd::prelude::*;
use vstd::string::*;

verus! {

/// Some entry of `entries` is filed under `key`.
pub open spec fn has_key(entries: Seq<(String, String)>, key: Seq<char>) -> bool {
    exists|i: int| 0 <= i < entries.len() && #[trigger] entries[i].0@ == key
}

/// The place of an entry that is filed under `key`.
pub open spec fn place_of(entries: Seq<(String, String)>, key: Seq<char>) -> int {
    choose|i: int| 0 <= i < entries.len() && #[trigger] entries[i].0@ == key
}

/// No two entries are filed under the same key.
pub open spec fn keys_distinct(entries: Seq<(String, String)>) -> bool {
    forall|i: int, j: int|
        0 <= i < j < entries.len() ==> #[trigger] entries[i].0@ != #[trigger] entries[j].0@
}

/// The entries as a map from key to value.
pub open spec fn entries_map(entries: Seq<(String, String)>) -> Map<Seq<char>, Seq<char>> {
    Map::new(
        |key: Seq<char>| has_key(entries, key),
        |key: Seq<char>| entries[place_of(entries, key)].1@,
    )
}

/// The map that results from filing the entries one after another, a later
/// one replacing an earlier one under the same key.
pub open spec fn filed(entries: Seq<(String, String)>) -> Map<Seq<char>, Seq<char>>
    decreases entries.len(),
{
    if entries.len() == 0 {
        Map::empty()
    } else {
        filed(entries.drop_last()).insert(entries.last().0@, entries.last().1@)
    }
}

/// In a list without a repeated key, the entry at `at` is the one that the
/// map shows under its key.
pub proof fn lemma_entry_shown(entries: Seq<(String, String)>, at: int)
    requires
        keys_distinct(entries),
        0 <= at < entries.len(),
    ensures
        entries_map(entries).dom().contains(entries[at].0@),
        entries_map(entries)[entries[at].0@] == entries[at].1@,
{
    let key = entries[at].0@;
    let chosen = place_of(entries, key);
    assert(0 <= chosen < entries.len() && entries[chosen].0@ == key);
    if chosen < at {
        assert(entries[chosen].0@ != entries[at].0@);
    } else if at < chosen {
        assert(entries[at].0@ != entries[chosen].0@);
    }
}

/// A mapping from sub-ids to records, without a repeated sub-id.
#[derive(Debug, PartialEq, Eq)]
pub struct Mapping {
    entries: Vec<(String, String)>,
}

impl View for Mapping {
    type V = Map<Seq<char>, Seq<char>>;

    closed spec fn view(&self) -> Map<Seq<char>, Seq<char>> {
        entries_map(self.entries@)
    }
}

impl Clone for Mapping {
    fn clone(&self) -> (copy: Self)
        ensures
            copy@ == self@,
    {
        self.duplicate()
    }
}

impl Mapping {
    #[verifier::type_invariant]
    spec fn tidy(&self) -> bool {
        keys_distinct(self.entries@)
    }

    /// The entries in the order in which their sub-ids first came.
    pub closed spec fn listing(&self) -> Seq<(String, String)> {
        self.entries@
    }

    /// The empty mapping.
    pub fn new() -> (mapping: Self)
        ensures
            mapping@ == Map::<Seq<char>, Seq<char>>::empty(),
            mapping.listing().len() == 0,
    {
        let mapping = Mapping { entries: Vec::new() };
        assert(mapping@ =~= Map::<Seq<char>, Seq<char>>::empty());
        mapping
    }

    /// The mapping with one entry.
    pub fn single(sub_id: &str, record: &str) -> (mapping: Self)
        ensures
            mapping@ == Map::<Seq<char>, Seq<char>>::empty().insert(sub_id@, record@),
    {
        let mut mapping = Mapping::new();
        mapping.insert(sub_id, record);
        mapping
    }

    /// Number of entries.
    pub fn len(&self) -> (count: usize)
        ensures
            count == self.listing().len(),
            self@.dom().finite(),
            count == self@.dom().len(),
    {
        proof {
            use_type_invariant(self);
            lemma_as_many_keys(self.entries@);
        }
        self.entries.len()
    }

    /// Is there no entry?
    pub fn is_empty(&self) -> (empty: bool)
        ensures
            empty == (self@ == Map::<Seq<char>, Seq<char>>::empty()),
            empty == (self@.dom() == Set::<Seq<char>>::empty()),
    {
        let empty = self.entries.len() == 0;
        proof {
            if empty {
                assert(self@ =~= Map::<Seq<char>, Seq<char>>::empty());
                assert(self@.dom() =~= Set::<Seq<char>>::empty());
            } else {
                assert(has_key(self.entries@, self.entries@[0].0@));
                assert(self@.dom().contains(self.entries@[0].0@));
            }
        }
        empty
    }

    /// Where the entry of `sub_id` stands, if there is one.
    fn position(&self, sub_id: &str) -> (place: Option<usize>)
        ensures
            match place {
                Some(at) => at < self.entries@.len() && self.entries@[at as int].0@ == sub_id@,
                None => !has_key(self.entries@, sub_id@),
            },
    {
        let wanted = String::from_str(sub_id);
        let mut at: usize = 0;
        while at < self.entries.len()
            invariant
                at <= self.entries@.len(),
                wanted@ == sub_id@,
                forall|i: int| 0 <= i < at ==> self.entries@[i].0@ != sub_id@,
            decreases self.entries@.len() - at,
        {
            if self.entries[at].0 == wanted {
                return Some(at);
            }
            at = at + 1;
        }
        None
    }

    /// Is there an entry for `sub_id`?
    pub fn contains_key(&self, sub_id: &str) -> (present: bool)
        ensures
            present == self@.dom().contains(sub_id@),
    {
        match self.position(sub_id) {
            Some(at) => {
                assert(has_key(self.entries@, sub_id@));
                true
            },
            None => false,
        }
    }

    /// The record of `sub_id`, if there is one.
    pub fn get(&self, sub_id: &str) -> (found: Option<String>)
        ensures
            match found {
                Some(record) => self@.dom().contains(sub_id@) && self@[sub_id@] == record@,
                None => !self@.dom().contains(sub_id@),
            },
    {
        proof {
            use_type_invariant(self);
        }
        match self.position(sub_id) {
            Some(at) => {
                proof {
                    lemma_entry_shown(self.entries@, at as int);
                }
                Some(self.entries[at].1.clone())
            },
            None => None,
        }
    }

    /// Files `record` under `sub_id`, in place of what was there. A new
    /// sub-id goes behind the others; a known one keeps its place.
    pub fn insert(&mut self, sub_id: &str, record: &str)
        ensures
            final(self)@ == old(self)@.insert(sub_id@, record@),
            final(self).listing().len() == old(self).listing().len() + if old(
                self,
            )@.dom().contains(sub_id@) {
                0int
            } else {
                1int
            },
            forall|i: int|
                0 <= i < old(self).listing().len() ==> (#[trigger] final(self).listing()[i].0@)
                    == old(self).listing()[i].0@ && (final(self).listing()[i].1@ == if old(
                    self,
                ).listing()[i].0@ == sub_id@ {
                    record@
                } else {
                    old(self).listing()[i].1@
                }),
    {
        proof {
            use_type_invariant(&*self);
        }
        let place = self.position(sub_id);
        let ghost before = self.entries@;
        proof {
            if place is Some {
                assert(has_key(before, sub_id@));
            }
        }
        let mut entries: Vec<(String, String)> = Vec::new();
        core::mem::swap(&mut self.entries, &mut entries);
        let entry = (String::from_str(sub_id), String::from_str(record));
        match place {
            Some(at) => {
                entries.set(at, entry);
            },
            None => {
                entries.push(entry);
            },
        }
        proof {
            lemma_filed_entry(before, entries@, sub_id@, record@);
        }
        self.entries = entries;
    }

    /// Takes the entry of `sub_id` away, and says whether there was one.
    /// The other entries keep their order.
    pub fn remove(&mut self, sub_id: &str) -> (removed: bool)
        ensures
            final(self)@ == old(self)@.remove(sub_id@),
            removed == old(self)@.dom().contains(sub_id@),
            !removed ==> final(self).listing() == old(self).listing(),
            removed ==> exists|at: int|
                0 <= at < old(self).listing().len() && old(self).listing()[at].0@ == sub_id@
                    && #[trigger] old(self).listing().remove(at) == final(self).listing(),
    {
        proof {
            use_type_invariant(&*self);
        }
        match self.position(sub_id) {
            Some(at) => {
                let ghost before = self.entries@;
                let mut entries: Vec<(String, String)> = Vec::new();
                core::mem::swap(&mut self.entries, &mut entries);
                entries.remove(at);
                proof {
                    lemma_removed_entry(before, at as int);
                    assert(has_key(before, sub_id@));
                }
                self.entries = entries;
                proof {
                    let place = at as int;
                    assert(before == old(self).listing());
                    assert(0 <= place < old(self).listing().len() && old(
                        self,
                    ).listing()[place].0@ == sub_id@ && old(self).listing().remove(place)
                        == self.listing());
                }
                true
            },
            None => {
                assert(self@.remove(sub_id@) =~= self@);
                false
            },
        }
    }

    /// A copy that is known to hold the same entries.
    pub fn duplicate(&self) -> (copy: Self)
        ensures
            copy@ == self@,
            copy.listing() == self.listing(),
    {
        proof {
            use_type_invariant(self);
        }
        let mut entries: Vec<(String, String)> = Vec::new();
        let mut at: usize = 0;
        while at < self.entries.len()
            invariant
                at <= self.entries@.len(),
                entries@ == self.entries@.take(at as int),
            decreases self.entries@.len() - at,
        {
            let entry = (self.entries[at].0.clone(), self.entries[at].1.clone());
            entries.push(entry);
            assert(entries@ == self.entries@.take(at + 1));
            at = at + 1;
        }
        assert(entries@ == self.entries@);
        Mapping { entries }
    }

    /// The entries as pairs of sub-id and record, in listing order.
    pub fn entries(&self) -> (pairs: Vec<(String, String)>)
        ensures
            pairs@ == self.listing(),
            keys_distinct(pairs@),
            entries_map(pairs@) == self@,
    {
        proof {
            use_type_invariant(self);
        }
        let copy = self.duplicate();
        copy.entries
    }

    /// Files the pairs one after another into an empty mapping.
    pub fn from_entries(pairs: &Vec<(String, String)>) -> (mapping: Self)
        ensures
            mapping@ == filed(pairs@),
    {
        let mut mapping = Mapping::new();
        let mut at: usize = 0;
        while at < pairs.len()
            invariant
                at <= pairs@.len(),
                mapping@ == filed(pairs@.take(at as int)),
            decreases pairs@.len() - at,
        {
            mapping.insert(pairs[at].0.as_str(), pairs[at].1.as_str());
            proof {
                assert(pairs@.take(at + 1).drop_last() == pairs@.take(at as int));
            }
            at = at + 1;
        }
        assert(pairs@.take(at as int) == pairs@);
        mapping
    }
}

/// A list without a repeated key shows as many keys as it has entries.
pub proof fn lemma_as_many_keys(entries: Seq<(String, String)>)
    requires
        keys_distinct(entries),
    ensures
        entries_map(entries).dom().finite(),
        entries_map(entries).dom().len() == entries.len(),
    decreases entries.len(),
{
    let keys = entries_map(entries).dom();
    if entries.len() == 0 {
        assert(keys =~= Set::<Seq<char>>::empty());
    } else {
        let front = entries.drop_last();
        let last = entries.last().0@;
        lemma_as_many_keys(front);
        let front_keys = entries_map(front).dom();
        assert(!front_keys.contains(last)) by {
            if has_key(front, last) {
                let i = place_of(front, last);
                assert(entries[i].0@ != entries[entries.len() - 1].0@);
            }
        }
        assert forall|key: Seq<char>| keys.contains(key) <==> front_keys.insert(last).contains(
            key,
        ) by {
            if has_key(entries, key) {
                let i = place_of(entries, key);
                if i < front.len() {
                    assert(front[i].0@ == key);
                }
            }
            if has_key(front, key) {
                let i = place_of(front, key);
                assert(entries[i].0@ == key);
            }
            if key == last {
                assert(entries[entries.len() - 1].0@ == key);
            }
        }
        assert(keys =~= front_keys.insert(last));
    }
}

/// Writing an entry over the one with the same key, or behind all others
/// where there is none, keeps the keys apart and files the value.
proof fn lemma_filed_entry(
    before: Seq<(String, String)>,
    after: Seq<(String, String)>,
    key: Seq<char>,
    value: Seq<char>,
)
    requires
        keys_distinct(before),
        ({
            ||| exists|at: int, entry: (String, String)|
                0 <= at < before.len() && before[at].0@ == key && #[trigger] before.update(
                    at,
                    entry,
                ) == after && entry.0@ == key && entry.1@ == value
            ||| exists|entry: (String, String)|
                !has_key(before, key) && #[trigger] before.push(entry) == after && entry.0@ == key
                    && entry.1@ == value
        }),
    ensures
        keys_distinct(after),
        entries_map(after) == entries_map(before).insert(key, value),
{
    assert(after.len() >= before.len());
    let at: int = if has_key(before, key) {
        place_of(before, key)
    } else {
        before.len() as int
    };
    assert(0 <= at < after.len());
    assert(after[at].0@ == key && after[at].1@ == value);
    assert forall|i: int| 0 <= i < after.len() && i != at implies i < before.len() && after[i]
        == before[i] && #[trigger] after[i].0@ != key by {
        if has_key(before, key) {
            if i < at {
                assert(before[i].0@ != before[at].0@);
            } else {
                assert(before[at].0@ != before[i].0@);
            }
        }
    }
    assert(keys_distinct(after)) by {
        assert forall|i: int, j: int| 0 <= i < j < after.len() implies #[trigger] after[i].0@
            != #[trigger] after[j].0@ by {
            if i != at && j != at {
                assert(before[i].0@ != before[j].0@);
            }
        }
    }
    assert forall|other: Seq<char>| #[trigger]
        entries_map(after).dom().contains(other) <==> entries_map(before).insert(
            key,
            value,
        ).dom().contains(other) by {
        if has_key(after, other) {
            let i = place_of(after, other);
            if i != at {
                assert(before[i].0@ == other);
            }
        }
        if has_key(before, other) {
            let i = place_of(before, other);
            assert(after[i].0@ == other);
        }
    }
    assert forall|other: Seq<char>| #[trigger]
        entries_map(after).dom().contains(other) implies entries_map(after)[other]
        == entries_map(before).insert(key, value)[other] by {
        let i = place_of(after, other);
        lemma_entry_shown(after, i);
        if i != at {
            lemma_entry_shown(before, i);
        }
    }
    assert(entries_map(after) =~= entries_map(before).insert(key, value));
}

/// Taking the entry at `at` out keeps the keys apart and takes its key
/// out of the map.
proof fn lemma_removed_entry(before: Seq<(String, String)>, at: int)
    requires
        keys_distinct(before),
        0 <= at < before.len(),
    ensures
        keys_distinct(before.remove(at)),
        entries_map(before.remove(at)) == entries_map(before).remove(before[at].0@),
{
    let after = before.remove(at);
    let key = before[at].0@;
    assert forall|i: int| 0 <= i < after.len() implies #[trigger] after[i] == before[if i < at {
        i
    } else {
        i + 1
    }] && after[i].0@ != key by {
        if i < at {
            assert(before[i].0@ != before[at].0@);
        } else {
            assert(before[at].0@ != before[i + 1].0@);
        }
    }
    assert(keys_distinct(after)) by {
        assert forall|i: int, j: int| 0 <= i < j < after.len() implies #[trigger] after[i].0@
            != #[trigger] after[j].0@ by {
            let bi = if i < at { i } else { i + 1 };
            let bj = if j < at { j } else { j + 1 };
            assert(before[bi].0@ != before[bj].0@);
        }
    }
    assert forall|other: Seq<char>| #[trigger]
        entries_map(after).dom().contains(other) <==> entries_map(before).remove(
            key,
        ).dom().contains(other) by {
        if has_key(after, other) {
            let i = place_of(after, other);
            let bi = if i < at { i } else { i + 1 };
            assert(before[bi].0@ == other);
        }
        if has_key(before, other) && other != key {
            let bi = place_of(before, other);
            let i = if bi < at { bi } else { bi - 1 };
            assert(after[i].0@ == other);
        }
    }
    assert forall|other: Seq<char>| #[trigger]
        entries_map(after).dom().contains(other) implies entries_map(after)[other]
        == entries_map(before).remove(key)[other] by {
        let i = place_of(after, other);
        let bi = if i < at { i } else { i + 1 };
        lemma_entry_shown(after, i);
        lemma_entry_shown(before, bi);
    }
    assert(entries_map(after) =~= entries_map(before).remove(key));
}

} // verus!
