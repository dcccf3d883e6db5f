//! The correlation map: from exchange-assigned correlation keys to the caller's
//! instrument keys, with a confirmation mark on every entry.
use vstd::prelude::*;

verus! {

/// One entry of a correlation map as a mathematical value.
pub struct EntryModel<K> {
    pub key: Seq<char>,
    pub instrument: K,
    pub confirmed: bool,
}

/// No correlation key occurs twice.
pub open spec fn distinct_keys<K>(entries: Seq<EntryModel<K>>) -> bool {
    forall|i: int, j: int| 0 <= i < j < entries.len() ==> entries[i].key != entries[j].key
}

/// Some entry has this key.
pub open spec fn contains_key<K>(entries: Seq<EntryModel<K>>, key: Seq<char>) -> bool {
    exists|i: int| 0 <= i < entries.len() && #[trigger] entries[i].key == key
}

/// Some entry has this key and is still unconfirmed.
pub open spec fn has_pending<K>(entries: Seq<EntryModel<K>>, key: Seq<char>) -> bool {
    exists|i: int| 0 <= i < entries.len() && #[trigger] entries[i].key == key && !entries[i].confirmed
}

/// Some entry has this key and is confirmed.
pub open spec fn has_confirmed<K>(entries: Seq<EntryModel<K>>, key: Seq<char>) -> bool {
    exists|i: int| 0 <= i < entries.len() && #[trigger] entries[i].key == key && entries[i].confirmed
}

/// Every entry is confirmed.
pub open spec fn all_confirmed<K>(entries: Seq<EntryModel<K>>) -> bool {
    forall|i: int| 0 <= i < entries.len() ==> (#[trigger] entries[i]).confirmed
}

/// No entry is confirmed.
pub open spec fn none_confirmed<K>(entries: Seq<EntryModel<K>>) -> bool {
    forall|i: int| 0 <= i < entries.len() ==> !(#[trigger] entries[i]).confirmed
}

/// The entries with the one under `key` marked confirmed; all others, keys and
/// instruments included, stay as they are.
pub open spec fn confirm<K>(entries: Seq<EntryModel<K>>, key: Seq<char>) -> Seq<EntryModel<K>> {
    Seq::new(
        entries.len(),
        |i: int|
            EntryModel {
                key: entries[i].key,
                instrument: entries[i].instrument,
                confirmed: entries[i].confirmed || entries[i].key == key,
            },
    )
}

/// The entries after seeding `key` with `instrument`, unconfirmed: a new key is
/// appended, a known key keeps its place and takes the new instrument.
pub open spec fn seed<K>(entries: Seq<EntryModel<K>>, key: Seq<char>, instrument: K) -> Seq<
    EntryModel<K>,
> {
    if contains_key(entries, key) {
        Seq::new(
            entries.len(),
            |i: int|
                if entries[i].key == key {
                    EntryModel { key, instrument, confirmed: false }
                } else {
                    entries[i]
                },
        )
    } else {
        entries.push(EntryModel { key, instrument, confirmed: false })
    }
}

/// Correlation keys with the instrument each stands for and whether the exchange
/// has confirmed it. Entries keep the order in which their keys were first seeded.
#[derive(Debug)]
pub struct CorrelationMap<K> {
    keys: Vec<String>,
    instruments: Vec<K>,
    confirmed: Vec<bool>,
}

impl<K> View for CorrelationMap<K> {
    type V = Seq<EntryModel<K>>;

    closed spec fn view(&self) -> Seq<EntryModel<K>> {
        Seq::new(
            self.keys@.len(),
            |i: int|
                EntryModel {
                    key: self.keys@[i]@,
                    instrument: self.instruments@[i],
                    confirmed: self.confirmed@[i],
                },
        )
    }
}

impl<K> CorrelationMap<K> {
    /// The representation is consistent and no key occurs twice.
    pub closed spec fn wf(&self) -> bool {
        &&& self.keys@.len() == self.instruments@.len()
        &&& self.keys@.len() == self.confirmed@.len()
        &&& distinct_keys(self@)
    }

    /// Every well-formed map has distinct keys.
    pub proof fn lemma_wf_distinct(&self)
        requires
            self.wf(),
        ensures
            distinct_keys(self@),
    {
    }

    /// An empty map.
    pub fn new() -> (map: CorrelationMap<K>)
        ensures
            map.wf(),
            map@ == Seq::<EntryModel<K>>::empty(),
    {
        let map = CorrelationMap { keys: Vec::new(), instruments: Vec::new(), confirmed: Vec::new() };
        assert(map@ =~= Seq::<EntryModel<K>>::empty());
        map
    }

    /// Number of entries.
    pub fn len(&self) -> (count: usize)
        requires
            self.wf(),
        ensures
            count == self@.len(),
    {
        self.keys.len()
    }

    /// Whether the map has no entry.
    pub fn is_empty(&self) -> (empty: bool)
        requires
            self.wf(),
        ensures
            empty == (self@.len() == 0),
    {
        self.keys.len() == 0
    }

    /// Index of the entry under `key`.
    fn position(&self, key: &String) -> (found: Option<usize>)
        requires
            self.wf(),
        ensures
            match found {
                Some(index) => index < self@.len() && self@[index as int].key == key@,
                None => !contains_key(self@, key@),
            },
    {
        let mut index: usize = 0;
        while index < self.keys.len()
            invariant
                self.wf(),
                index <= self.keys@.len(),
                forall|i: int| 0 <= i < index ==> (#[trigger] self@[i]).key != key@,
            decreases self.keys@.len() - index,
        {
            if self.keys[index] == *key {
                return Some(index);
            }
            index += 1;
        }
        None
    }

    /// Seeds `key` as expected and unconfirmed for `instrument`.
    pub fn insert(&mut self, key: String, instrument: K)
        requires
            old(self).wf(),
        ensures
            final(self).wf(),
            final(self)@ == seed(old(self)@, key@, instrument),
    {
        match self.position(&key) {
            Some(index) => {
                self.instruments.set(index, instrument);
                self.confirmed.set(index, false);
                assert(old(self)@[index as int].key == key@);
                assert(self@ =~= seed(old(self)@, key@, instrument));
            },
            None => {
                self.keys.push(key);
                self.instruments.push(instrument);
                self.confirmed.push(false);
                assert(self@ =~= seed(old(self)@, key@, instrument));
            },
        }
    }

    /// Whether some entry has this key.
    pub fn contains_key(&self, key: &String) -> (found: bool)
        requires
            self.wf(),
        ensures
            found == contains_key(self@, key@),
    {
        self.position(key).is_some()
    }

    /// The instrument that `key` stands for.
    pub fn find(&self, key: &String) -> (found: Option<&K>)
        requires
            self.wf(),
        ensures
            found.is_some() == contains_key(self@, key@),
            found matches Some(instrument) ==> exists|i: int|
                0 <= i < self@.len() && #[trigger] self@[i].key == key@ && self@[i].instrument
                    == *instrument,
    {
        match self.position(key) {
            Some(index) => {
                assert(self@[index as int].key == key@);
                Some(&self.instruments[index])
            },
            None => None,
        }
    }

    /// Whether `key` is seeded and not yet confirmed.
    pub fn is_pending(&self, key: &String) -> (pending: bool)
        requires
            self.wf(),
        ensures
            pending == has_pending(self@, key@),
    {
        match self.position(key) {
            Some(index) => {
                assert(self@[index as int].key == key@);
                !self.confirmed[index]
            },
            None => false,
        }
    }

    /// Whether `key` is seeded and confirmed.
    pub fn is_confirmed(&self, key: &String) -> (confirmed: bool)
        requires
            self.wf(),
        ensures
            confirmed == has_confirmed(self@, key@),
    {
        match self.position(key) {
            Some(index) => {
                assert(self@[index as int].key == key@);
                self.confirmed[index]
            },
            None => false,
        }
    }

    /// Whether every entry is confirmed; true of the empty map.
    pub fn all_confirmed(&self) -> (complete: bool)
        requires
            self.wf(),
        ensures
            complete == all_confirmed(self@),
    {
        let mut index: usize = 0;
        while index < self.confirmed.len()
            invariant
                self.wf(),
                index <= self.confirmed@.len(),
                forall|i: int| 0 <= i < index ==> (#[trigger] self@[i]).confirmed,
            decreases self.confirmed@.len() - index,
        {
            if !self.confirmed[index] {
                assert(!self@[index as int].confirmed);
                return false;
            }
            index += 1;
        }
        true
    }

    /// Marks the entry under `key` confirmed. Returns whether a pending entry was
    /// found; a key that is unknown or already confirmed leaves the map as it was.
    pub fn confirm(&mut self, key: &String) -> (newly: bool)
        requires
            old(self).wf(),
        ensures
            final(self).wf(),
            newly == has_pending(old(self)@, key@),
            final(self)@ == confirm(old(self)@, key@),
            !newly ==> final(self)@ == old(self)@,
    {
        match self.position(key) {
            Some(index) => {
                let newly = !self.confirmed[index];
                assert(self@[index as int].key == key@);
                self.confirmed.set(index, true);
                assert(self@ =~= confirm(old(self)@, key@));
                assert(!newly ==> self@ =~= old(self)@);
                newly
            },
            None => {
                assert(self@ =~= confirm(old(self)@, key@));
                false
            },
        }
    }

    /// The correlation key of the entry at `index`, in seeding order.
    pub fn key_at(&self, index: usize) -> (key: &String)
        requires
            self.wf(),
            index < self@.len(),
        ensures
            key@ == self@[index as int].key,
    {
        &self.keys[index]
    }

    /// The instrument of the entry at `index`, in seeding order.
    pub fn instrument_at(&self, index: usize) -> (instrument: &K)
        requires
            self.wf(),
            index < self@.len(),
        ensures
            *instrument == self@[index as int].instrument,
    {
        &self.instruments[index]
    }

    /// Whether the entry at `index` is confirmed.
    pub fn confirmed_at(&self, index: usize) -> (confirmed: bool)
        requires
            self.wf(),
            index < self@.len(),
        ensures
            confirmed == self@[index as int].confirmed,
    {
        self.confirmed[index]
    }
}

/// Confirming keeps the keys distinct.
pub proof fn lemma_confirm_keeps_keys<K>(entries: Seq<EntryModel<K>>, key: Seq<char>)
    ensures
        confirm(entries, key).len() == entries.len(),
        distinct_keys(entries) ==> distinct_keys(confirm(entries, key)),
        forall|i: int|
            0 <= i < entries.len() ==> (#[trigger] confirm(entries, key)[i]).key == entries[i].key
                && confirm(entries, key)[i].instrument == entries[i].instrument,
{
}

} // verus!
