//! A generic configuration tree, as produced by a document parser, and
//! lookups on it.

use vstd::prelude::*;

verus! {

/// A dynamically-typed configuration value.
///
/// Tables keep their entries in document order; the document format does not
/// allow one key twice in a table, so a lookup returns the first entry with
/// the key.
#[derive(Debug)]
pub enum ConfigValue {
    Str(String),
    Table(Vec<(String, ConfigValue)>),
    Array(Vec<ConfigValue>),
    /// Any other scalar (number, boolean, date).
    Other,
}

/// The value bound to `key` by the first entry of `entries` that has it.
pub open spec fn find_entry(entries: Seq<(String, ConfigValue)>, key: Seq<char>) -> Option<ConfigValue>
    decreases entries.len(),
{
    if entries.len() == 0 {
        None
    } else if entries[0].0@ == key {
        Some(entries[0].1)
    } else {
        find_entry(entries.drop_first(), key)
    }
}

/// What `value` binds to `key`: nothing unless `value` is a table.
pub open spec fn lookup_spec(value: ConfigValue, key: Seq<char>) -> Option<ConfigValue> {
    match value {
        ConfigValue::Table(entries) => find_entry(entries@, key),
        _ => None,
    }
}

/// The string held by `value`, if it is a string.
pub open spec fn str_of(value: ConfigValue) -> Option<Seq<char>> {
    match value {
        ConfigValue::Str(s) => Some(s@),
        _ => None,
    }
}

/// The value behind an optional reference.
pub open spec fn deref_opt(r: Option<&ConfigValue>) -> Option<ConfigValue> {
    match r {
        Some(v) => Some(*v),
        None => None,
    }
}

proof fn lemma_find_entry_suffix(entries: Seq<(String, ConfigValue)>, key: Seq<char>, i: int)
    requires
        0 <= i < entries.len(),
        entries[i].0@ != key,
    ensures
        find_entry(entries.subrange(i, entries.len() as int), key) == find_entry(
            entries.subrange(i + 1, entries.len() as int),
            key,
        ),
{
    let s = entries.subrange(i, entries.len() as int);
    assert(s.drop_first() =~= entries.subrange(i + 1, entries.len() as int));
}

/// Finds the value that the table `entries` binds to `key`.
pub fn find_in_table<'a>(entries: &'a Vec<(String, ConfigValue)>, key: &String) -> (r: Option<&'a ConfigValue>)
    ensures
        deref_opt(r) == find_entry(entries@, key@),
{
    let mut i: usize = 0;
    proof {
        assert(entries@.subrange(0, entries@.len() as int) =~= entries@);
    }
    while i < entries.len()
        invariant
            0 <= i <= entries@.len(),
            find_entry(entries@, key@) == find_entry(entries@.subrange(i as int, entries@.len() as int), key@),
        decreases entries@.len() - i,
    {
        if entries[i].0 == *key {
            return Some(&entries[i].1);
        }
        proof {
            lemma_find_entry_suffix(entries@, key@, i as int);
        }
        i = i + 1;
    }
    None
}

impl ConfigValue {
    /// Looks `key` up in this value, which binds nothing unless it is a table.
    pub fn lookup(&self, key: &String) -> (r: Option<&ConfigValue>)
        ensures
            deref_opt(r) == lookup_spec(*self, key@),
    {
        match self {
            ConfigValue::Table(entries) => find_in_table(entries, key),
            _ => None,
        }
    }
}

} // verus!
