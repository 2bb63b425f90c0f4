//! The settings document: keys with values, written one key at a time.

use vstd::prelude::*;

verus! {

/// A stored value as far as the settings care: a boolean, a text, or
/// anything else.
#[derive(Debug, PartialEq, Eq)]
pub enum StoredValue {
    Bool(bool),
    Text(String),
    Other,
}

/// Mathematical content of a `StoredValue`.
pub enum StoredValueView {
    Bool(bool),
    Text(Seq<char>),
    Other,
}

impl View for StoredValue {
    type V = StoredValueView;

    open spec fn view(&self) -> StoredValueView {
        match self {
            StoredValue::Bool(b) => StoredValueView::Bool(*b),
            StoredValue::Text(t) => StoredValueView::Text(t@),
            StoredValue::Other => StoredValueView::Other,
        }
    }
}

impl Clone for StoredValue {
    fn clone(&self) -> (r: Self)
        ensures
            r@ == self@,
    {
        match self {
            StoredValue::Bool(b) => StoredValue::Bool(*b),
            StoredValue::Text(t) => StoredValue::Text(t.clone()),
            StoredValue::Other => StoredValue::Other,
        }
    }
}

/// One key of the document with its value.
#[derive(Debug, PartialEq, Eq)]
pub struct StoreEntry {
    pub key: String,
    pub value: StoredValue,
}

/// The value found under a key: that of the first entry with the key.
pub open spec fn lookup(entries: Seq<StoreEntry>, key: Seq<char>) -> Option<StoredValueView>
    decreases entries.len(),
{
    if entries.len() == 0 {
        None
    } else if entries[0].key@ == key {
        Some(entries[0].value@)
    } else {
        lookup(entries.drop_first(), key)
    }
}

/// The document as a map from keys to values.
pub open spec fn document(entries: Seq<StoreEntry>) -> Map<Seq<char>, StoredValueView> {
    Map::new(|k: Seq<char>| lookup(entries, k) is Some, |k: Seq<char>| lookup(entries, k)->0)
}

/// No entry before position `n` has the key.
pub open spec fn absent_before(entries: Seq<StoreEntry>, key: Seq<char>, n: int) -> bool {
    forall|j: int| 0 <= j < n ==> (#[trigger] entries[j]).key@ != key
}

/// Where no entry before `n` has the key, the lookup is that of the entries
/// from `n` on.
pub proof fn lemma_lookup_skips(entries: Seq<StoreEntry>, key: Seq<char>, n: int)
    requires
        0 <= n <= entries.len(),
        absent_before(entries, key, n),
    ensures
        lookup(entries, key) == lookup(entries.skip(n), key),
    decreases n,
{
    if n == 0 {
        assert(entries.skip(0) =~= entries);
    } else {
        assert(entries[0].key@ != key);
        let rest = entries.drop_first();
        assert forall|j: int| 0 <= j < n - 1 implies (#[trigger] rest[j]).key@ != key by {
            assert(rest[j] == entries[j + 1]);
        }
        lemma_lookup_skips(rest, key, n - 1);
        assert(rest.skip(n - 1) =~= entries.skip(n));
    }
}

/// Replacing the value of the entry at `i` changes the lookup of its key,
/// where no earlier entry has that key, and of no other key.
pub proof fn lemma_lookup_after_replace(
    before: Seq<StoreEntry>,
    after: Seq<StoreEntry>,
    i: int,
    key: Seq<char>,
)
    requires
        0 <= i < before.len(),
        after.len() == before.len(),
        forall|j: int| 0 <= j < before.len() && j != i ==> after[j] == before[j],
        after[i].key@ == before[i].key@,
    ensures
        key != before[i].key@ ==> lookup(after, key) == lookup(before, key),
        key == before[i].key@ && absent_before(before, key, i) ==> lookup(after, key) == Some(
            after[i].value@,
        ),
    decreases before.len(),
{
    if i == 0 {
        assert(after.drop_first() =~= before.drop_first());
    } else {
        assert(after[0] == before[0]);
        let b = before.drop_first();
        let a = after.drop_first();
        assert forall|j: int| 0 <= j < b.len() && j != i - 1 implies a[j] == b[j] by {
            assert(a[j] == after[j + 1]);
            assert(b[j] == before[j + 1]);
        }
        assert(a[i - 1] == after[i]);
        assert(b[i - 1] == before[i]);
        lemma_lookup_after_replace(b, a, i - 1, key);
        if key == before[i].key@ && absent_before(before, key, i) {
            assert(before[0].key@ != key);
            assert forall|j: int| 0 <= j < i - 1 implies (#[trigger] b[j]).key@ != key by {
                assert(b[j] == before[j + 1]);
            }
        }
    }
}

/// Appending an entry whose key no entry has adds that key and changes no
/// other.
pub proof fn lemma_lookup_after_append(entries: Seq<StoreEntry>, entry: StoreEntry, key: Seq<char>)
    requires
        absent_before(entries, entry.key@, entries.len() as int),
    ensures
        lookup(entries.push(entry), key) == (if key == entry.key@ {
            Some(entry.value@)
        } else {
            lookup(entries, key)
        }),
    decreases entries.len(),
{
    let grown = entries.push(entry);
    if entries.len() == 0 {
        assert(grown.drop_first() =~= Seq::<StoreEntry>::empty());
    } else {
        assert(grown[0] == entries[0]);
        assert(entries[0].key@ != entry.key@);
        let rest = entries.drop_first();
        assert forall|j: int| 0 <= j < rest.len() implies (#[trigger] rest[j]).key@
            != entry.key@ by {
            assert(rest[j] == entries[j + 1]);
        }
        lemma_lookup_after_append(rest, entry, key);
        assert(grown.drop_first() =~= rest.push(entry));
    }
}

/// The settings document. It has no notion of a transaction: each `set`
/// writes one key and is seen at once.
#[derive(Debug, PartialEq, Eq)]
pub struct SettingsStore {
    pub entries: Vec<StoreEntry>,
}

impl View for SettingsStore {
    type V = Map<Seq<char>, StoredValueView>;

    open spec fn view(&self) -> Map<Seq<char>, StoredValueView> {
        document(self.entries@)
    }
}

impl SettingsStore {
    /// The document of a settings file that does not exist yet: no key.
    pub fn new() -> (store: SettingsStore)
        ensures
            store@ == Map::<Seq<char>, StoredValueView>::empty(),
    {
        let store = SettingsStore { entries: Vec::new() };
        assert(store@ =~= Map::<Seq<char>, StoredValueView>::empty());
        store
    }

    /// The position of the first entry with the key.
    fn position(&self, key: &str) -> (r: Option<usize>)
        ensures
            match r {
                Some(i) => i < self.entries@.len() && self.entries@[i as int].key@ == key@
                    && absent_before(self.entries@, key@, i as int),
                None => absent_before(self.entries@, key@, self.entries@.len() as int),
            },
    {
        let mut i: usize = 0;
        while i < self.entries.len()
            invariant
                i <= self.entries.len(),
                absent_before(self.entries@, key@, i as int),
            decreases self.entries.len() - i,
        {
            if str_eq(self.entries[i].key.as_str(), key) {
                return Some(i);
            }
            i += 1;
        }
        None
    }

    /// The value stored under a key, if there is one.
    pub fn get(&self, key: &str) -> (r: Option<&StoredValue>)
        ensures
            match r {
                Some(value) => self@.dom().contains(key@) && self@[key@] == value@,
                None => !self@.dom().contains(key@),
            },
    {
        match self.position(key) {
            Some(i) => {
                proof {
                    lemma_lookup_skips(self.entries@, key@, i as int);
                }
                Some(&self.entries[i].value)
            },
            None => {
                proof {
                    lemma_lookup_skips(self.entries@, key@, self.entries@.len() as int);
                }
                None
            },
        }
    }

    /// Writes one key: afterwards the key holds the value, and every other
    /// key holds what it held before.
    pub fn set(&mut self, key: &str, value: StoredValue)
        ensures
            final(self)@ == old(self)@.insert(key@, value@),
    {
        let ghost before = self.entries@;
        match self.position(key) {
            Some(i) => {
                let entry = StoreEntry { key: key.to_owned(), value };
                self.entries.set(i, entry);
                proof {
                    let after = self.entries@;
                    assert forall|k: Seq<char>| lookup(after, k) == (if k == key@ {
                        Some(value@)
                    } else {
                        lookup(before, k)
                    }) by {
                        lemma_lookup_after_replace(before, after, i as int, k);
                    }
                    assert(document(after) =~= document(before).insert(key@, value@));
                }
            },
            None => {
                let entry = StoreEntry { key: key.to_owned(), value };
                self.entries.push(entry);
                proof {
                    let after = self.entries@;
                    assert forall|k: Seq<char>| lookup(after, k) == (if k == key@ {
                        Some(value@)
                    } else {
                        lookup(before, k)
                    }) by {
                        lemma_lookup_after_append(before, entry, k);
                    }
                    assert(document(after) =~= document(before).insert(key@, value@));
                }
            },
        }
    }
}

/// Whether two texts are the same.
pub fn str_eq(a: &str, b: &str) -> (same: bool)
    ensures
        same == (a@ == b@),
{
    let x = a.to_owned();
    let y = b.to_owned();
    x == y
}

} // verus!
