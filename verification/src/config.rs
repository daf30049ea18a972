//! The configuration store: an opaque key/value table of scalar values,
//! keyed by setting key. The on-disk syntax is a collaborator's concern;
//! this module only guarantees exact scalar round-trips.
//!
//! The scalar shapes are boolean and integer. Floating-point values cannot
//! be stated in this library, so settings carrying them live with the
//! platform layer, which persists them alongside this store.

use vstd::prelude::*;

verus! {

/// A persistable scalar value of a setting.
#[derive(Clone, Copy, PartialEq, Eq, Structural, Debug)]
pub enum ConfigValue {
    /// A toggle state.
    Bool(bool),
    /// A numeric slider value.
    Int(i64),
}

/// A persisted value that cannot be loaded into a setting: its shape does
/// not fit the setting it is keyed to. The load skips that one setting,
/// leaving it at its current value.
#[derive(Clone, Copy, PartialEq, Eq, Structural, Debug)]
pub enum ConfigError {
    /// The stored value has the wrong scalar kind for the setting.
    TypeMismatch,
    /// The stored number lies outside the setting's allowed range.
    OutOfRange,
}

/// The mapping a key/value sequence denotes; later entries win, though a
/// well-formed table never repeats a key.
pub open spec fn table_map(s: Seq<(String, ConfigValue)>) -> Map<Seq<char>, ConfigValue>
    decreases s.len(),
{
    if s.len() == 0 {
        Map::empty()
    } else {
        table_map(s.drop_last()).insert(s.last().0@, s.last().1)
    }
}

/// No two entries share a key.
pub open spec fn unique_keys(s: Seq<(String, ConfigValue)>) -> bool {
    forall|i: int, j: int| 0 <= i < j < s.len() ==> s[i].0@ != s[j].0@
}

/// A key is in the denoted map exactly when some entry carries it; with
/// unique keys, the map holds that entry's value.
proof fn lemma_table_map_get(s: Seq<(String, ConfigValue)>, k: Seq<char>)
    requires
        unique_keys(s),
    ensures
        table_map(s).contains_key(k) <==> exists|i: int| 0 <= i < s.len() && s[i].0@ == k,
        forall|i: int| 0 <= i < s.len() && s[i].0@ == k ==> table_map(s)[k] == s[i].1,
    decreases s.len(),
{
    if s.len() > 0 {
        assert(s.drop_last().len() == s.len() - 1);
        assert(forall|i: int| 0 <= i < s.len() - 1 ==> s.drop_last()[i] == s[i]);
        lemma_table_map_get(s.drop_last(), k);
        if table_map(s).contains_key(k) {
            if s.last().0@ != k {
                let i = choose|i: int| 0 <= i < s.drop_last().len() && s.drop_last()[i].0@ == k;
                assert(s[i].0@ == k);
            }
        }
        assert forall|i: int| 0 <= i < s.len() && s[i].0@ == k implies table_map(s)[k]
            == s[i].1 by {
            if i == s.len() - 1 {
                assert(table_map(s)[k] == s.last().1);
            } else {
                // unique keys: the last entry's key differs from s[i]'s
                assert(s[i].0@ != s.last().0@);
                assert(s.drop_last()[i].0@ == k);
                assert(table_map(s)[k] == table_map(s.drop_last())[k]);
            }
        }
    }
}

/// Replacing the entry at `i` by one with the same key replaces that key's
/// binding in the map, provided the keys are unique.
proof fn lemma_table_map_update(
    s: Seq<(String, ConfigValue)>,
    i: int,
    p: (String, ConfigValue),
)
    requires
        unique_keys(s),
        0 <= i < s.len(),
        p.0@ == s[i].0@,
    ensures
        table_map(s.update(i, p)) == table_map(s).insert(p.0@, p.1),
    decreases s.len(),
{
    let t = s.update(i, p);
    if i == s.len() - 1 {
        assert(t.drop_last() =~= s.drop_last());
        assert(t.last() == p);
        assert(table_map(t) =~= table_map(s).insert(p.0@, p.1));
    } else {
        assert(forall|a: int, b: int|
            0 <= a < b < s.drop_last().len() ==> s.drop_last()[a].0@ != s.drop_last()[b].0@);
        lemma_table_map_update(s.drop_last(), i, p);
        assert(t.drop_last() =~= s.drop_last().update(i, p));
        assert(t.last() == s.last());
        // the final insert of the last entry commutes with the inner insert
        // because their keys differ (unique keys)
        assert(s[i].0@ != s.last().0@);
        assert(table_map(t) =~= table_map(s).insert(p.0@, p.1));
    }
}

/// A unique-keyed table denotes a map with one key per entry.
proof fn lemma_table_map_len(s: Seq<(String, ConfigValue)>)
    requires
        unique_keys(s),
    ensures
        table_map(s).dom().finite(),
        table_map(s).dom().len() == s.len(),
    decreases s.len(),
{
    if s.len() > 0 {
        assert(forall|a: int, b: int|
            0 <= a < b < s.drop_last().len() ==> s.drop_last()[a].0@ != s.drop_last()[b].0@);
        lemma_table_map_len(s.drop_last());
        lemma_table_map_get(s.drop_last(), s.last().0@);
        assert forall|i: int| 0 <= i < s.drop_last().len() implies s.drop_last()[i].0@
            != s.last().0@ by {
            assert(s[i].0@ != s[s.len() - 1].0@);
        }
        assert(!table_map(s.drop_last()).contains_key(s.last().0@));
    }
}

/// A key/value table of scalar values with unique keys.
pub struct ConfigTable {
    entries: Vec<(String, ConfigValue)>,
}

impl View for ConfigTable {
    type V = Map<Seq<char>, ConfigValue>;

    closed spec fn view(&self) -> Map<Seq<char>, ConfigValue> {
        table_map(self.entries@)
    }
}

impl ConfigTable {
    /// The invariant: no key occurs twice.
    pub closed spec fn wf(&self) -> bool {
        unique_keys(self.entries@)
    }

    /// An empty table.
    pub fn new() -> (r: ConfigTable)
        ensures
            r@ == Map::<Seq<char>, ConfigValue>::empty(),
            r.wf(),
    {
        ConfigTable { entries: Vec::new() }
    }

    /// The number of keys in the table.
    pub fn len(&self) -> (r: usize)
        requires
            self.wf(),
        ensures
            r == self@.dom().len(),
    {
        proof {
            lemma_table_map_len(self.entries@);
        }
        self.entries.len()
    }

    /// Look the key up; `None` exactly when the table does not hold it.
    pub fn get(&self, key: &String) -> (r: Option<ConfigValue>)
        requires
            self.wf(),
        ensures
            r == if self@.contains_key(key@) {
                Some(self@[key@])
            } else {
                None::<ConfigValue>
            },
    {
        proof {
            lemma_table_map_get(self.entries@, key@);
        }
        let n = self.entries.len();
        let mut i: usize = 0;
        while i < n
            invariant
                self.wf(),
                n == self.entries@.len(),
                i <= n,
                forall|j: int| 0 <= j < i ==> self.entries@[j].0@ != key@,
            decreases n - i,
        {
            if self.entries[i].0 == *key {
                proof {
                    lemma_table_map_get(self.entries@, key@);
                }
                return Some(self.entries[i].1);
            }
            i += 1;
        }
        None
    }

    /// The table's bindings as key/value pairs, one per key.
    pub fn pairs(&self) -> (r: Vec<(String, ConfigValue)>)
        requires
            self.wf(),
        ensures
            unique_keys(r@),
            table_map(r@) == self@,
    {
        let n = self.entries.len();
        let mut r: Vec<(String, ConfigValue)> = Vec::new();
        let mut i: usize = 0;
        while i < n
            invariant
                n == self.entries@.len(),
                i <= n,
                self.wf(),
                r@.len() == i,
                forall|j: int| 0 <= j < i ==> r@[j] == self.entries@[j],
            decreases n - i,
        {
            r.push((self.entries[i].0.clone(), self.entries[i].1));
            i += 1;
        }
        proof {
            assert(r@ =~= self.entries@);
        }
        r
    }

    /// Bind `key` to `value`, replacing any previous binding.
    pub fn set(&mut self, key: String, value: ConfigValue)
        requires
            old(self).wf(),
        ensures
            final(self).wf(),
            final(self)@ == old(self)@.insert(key@, value),
    {
        let n = self.entries.len();
        let mut i: usize = 0;
        while i < n
            invariant
                self.wf(),
                *self == *old(self),
                n == self.entries@.len(),
                i <= n,
                forall|j: int| 0 <= j < i ==> self.entries@[j].0@ != key@,
            decreases n - i,
        {
            if self.entries[i].0 == key {
                let ghost prev = self.entries@;
                self.entries.set(i, (key, value));
                proof {
                    lemma_table_map_update(prev, i as int, (key, value));
                    assert forall|a: int, b: int|
                        0 <= a < b < self.entries@.len() implies self.entries@[a].0@
                        != self.entries@[b].0@ by {
                        assert(prev[a].0@ != prev[b].0@);
                    }
                }
                return ;
            }
            i += 1;
        }
        let ghost prev = self.entries@;
        self.entries.push((key, value));
        proof {
            assert(self.entries@.drop_last() =~= prev);
            assert(self.entries@.last() == (key, value));
            assert forall|a: int, b: int|
                0 <= a < b < self.entries@.len() implies self.entries@[a].0@
                != self.entries@[b].0@ by {
                if b < self.entries@.len() - 1 {
                    assert(prev[a].0@ != prev[b].0@);
                } else {
                    assert(self.entries@[a] == prev[a]);
                }
            }
        }
    }
}

} // verus!
