//! The already-parsed property-list snapshot that the raw-acquisition
//! collaborator hands the adapter: a tree of keyed dictionaries, arrays
//! and scalar leaves.
//!
//! The adapter only ever reads booleans, integers, strings, nested
//! dictionaries and arrays; every other leaf kind a property list can
//! carry is held as [`Value::Other`], whose reads fail like a leaf of
//! the wrong kind.

use vstd::prelude::*;

use crate::text;

verus! {

/// One node of the parsed snapshot.
#[derive(Debug)]
pub enum Value {
    Boolean(bool),
    /// Integers are kept wide enough for both the signed and the
    /// unsigned 64-bit range a property list can carry.
    Integer(i128),
    Text(String),
    Array(Vec<Value>),
    Dict(Dictionary),
    /// A leaf kind the adapter never reads (binary data, dates, reals).
    Other,
}

/// A keyed collection of values; the first entry with a given key wins.
#[derive(Debug)]
pub struct Dictionary {
    pub entries: Vec<(String, Value)>,
}

/// The first value stored under `key`, if any.
pub open spec fn spec_lookup(entries: Seq<(String, Value)>, key: Seq<char>) -> Option<Value>
    decreases entries.len(),
{
    if entries.len() == 0 {
        None
    } else if entries[0].0@ == key {
        Some(entries[0].1)
    } else {
        spec_lookup(entries.drop_first(), key)
    }
}

proof fn lemma_lookup_step(entries: Seq<(String, Value)>, key: Seq<char>, i: int)
    requires
        0 <= i < entries.len(),
        entries[i].0@ != key,
    ensures
        spec_lookup(entries.skip(i), key) == spec_lookup(entries.skip(i + 1), key),
{
    assert(entries.skip(i).drop_first() =~= entries.skip(i + 1));
    assert(entries.skip(i)[0] == entries[i]);
}

impl Dictionary {
    pub fn new() -> (r: Dictionary)
        ensures
            r.entries@.len() == 0,
    {
        Dictionary { entries: Vec::new() }
    }

    /// Appends an entry; an existing entry with the same key keeps
    /// priority on lookup.
    pub fn push(&mut self, key: String, value: Value)
        ensures
            final(self).entries@ == old(self).entries@.push((key, value)),
    {
        self.entries.push((key, value));
    }

    pub fn len(&self) -> (r: usize)
        ensures
            r == self.entries@.len(),
    {
        self.entries.len()
    }

    /// The first value stored under `key`, if any.
    pub fn get(&self, key: &str) -> (r: Option<&Value>)
        ensures
            match r {
                Some(v) => spec_lookup(self.entries@, key@) == Some(*v),
                None => spec_lookup(self.entries@, key@) is None,
            },
    {
        let ghost all = self.entries@;
        proof {
            assert(all.skip(0) =~= all);
        }
        let mut i: usize = 0;
        while i < self.entries.len()
            invariant
                all == self.entries@,
                i <= all.len(),
                spec_lookup(all, key@) == spec_lookup(all.skip(i as int), key@),
            decreases all.len() - i,
        {
            if text::str_equal(self.entries[i].0.as_str(), key) {
                assert(all.skip(i as int)[0] == all[i as int]);
                return Some(&self.entries[i].1);
            }
            proof {
                lemma_lookup_step(all, key@, i as int);
            }
            i = i + 1;
        }
        proof {
            assert(all.skip(all.len() as int) =~= Seq::<(String, Value)>::empty());
        }
        None
    }
}

} // verus!
