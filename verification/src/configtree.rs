use vstd::prelude::*;

verus! {

/// A typed value held in the configuration tree: a scalar, an array of
/// values, or a nested table of named values.
#[derive(Debug, PartialEq)]
pub enum Value {
    Str(String),
    Int(i64),
    Bool(bool),
    Array(Vec<Value>),
    Table(Vec<(String, Value)>),
}

/// The first entry of `entries` whose key reads as `key`, if any.
pub open spec fn lookup_entries(entries: Seq<(String, Value)>, key: Seq<char>) -> Option<Value>
    decreases entries.len(),
{
    if entries.len() == 0 {
        None
    } else if entries[0].0@ == key {
        Some(entries[0].1)
    } else {
        lookup_entries(entries.subrange(1, entries.len() as int), key)
    }
}

/// Finds the first entry of `entries` whose key reads as `key`. The
/// result borrows from `entries`; nothing is consumed or reordered.
pub fn get_entry<'a>(entries: &'a Vec<(String, Value)>, key: &str) -> (r: Option<&'a Value>)
    ensures
        match lookup_entries(entries@, key@) {
            Some(v) => (r matches Some(rv) && *rv == v),
            None => r is None,
        },
{
    let k: String = key.to_owned();
    let n = entries.len();
    let mut i: usize = 0;
    proof {
        assert(entries@.subrange(0, n as int) =~= entries@);
    }
    while i < n
        invariant
            n == entries.len(),
            i <= n,
            k@ == key@,
            lookup_entries(entries@.subrange(i as int, n as int), key@) == lookup_entries(
                entries@,
                key@,
            ),
        decreases n - i,
    {
        proof {
            assert(entries@.subrange(i as int, n as int)[0] == entries@[i as int]);
        }
        if entries[i].0 == k {
            return Some(&entries[i].1);
        }
        proof {
            assert(entries@.subrange(i as int, n as int).subrange(1, (n - i) as int)
                =~= entries@.subrange(i + 1, n as int));
        }
        i = i + 1;
    }
    None
}

/// A hierarchical key-value store, keyed by dotted paths such as
/// `modules.prompt.style_success`. It is loaded once before a render
/// and only read afterwards: every accessor takes the tree by shared
/// reference, so a read never consumes or invalidates it.
pub struct Config {
    entries: Vec<(String, Value)>,
}

impl Config {
    /// What this tree binds `key` to.
    pub closed spec fn spec_lookup(&self, key: Seq<char>) -> Option<Value> {
        lookup_entries(self.entries@, key)
    }

    pub fn new() -> (c: Config)
        ensures
            forall|k: Seq<char>| c.spec_lookup(k) is None,
    {
        Config { entries: Vec::new() }
    }

    /// Binds `key` to `value`, shadowing any earlier binding of the
    /// same key and leaving every other binding as it was.
    pub fn set(&mut self, key: &str, value: Value)
        ensures
            final(self).spec_lookup(key@) == Some(value),
            forall|k2: Seq<char>|
                k2 != key@ ==> final(self).spec_lookup(k2) == old(self).spec_lookup(k2),
    {
        let pair = (key.to_owned(), value);
        self.entries.insert(0, pair);
        proof {
            assert(self.entries@.subrange(1, self.entries@.len() as int) =~= old(
                self,
            ).entries@);
        }
    }

    /// Looks `key` up without consuming the tree: the result borrows
    /// from it, and the tree remains valid for further reads.
    pub fn get<'a>(&'a self, key: &str) -> (r: Option<&'a Value>)
        ensures
            match self.spec_lookup(key@) {
                Some(v) => (r matches Some(rv) && *rv == v),
                None => r is None,
            },
    {
        get_entry(&self.entries, key)
    }
}

} // verus!
