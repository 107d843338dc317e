//! The method resolver's cache: method names against the numeric call
//! identifiers the automation object resolved them to.
//!
//! The object itself translates a name to an identifier; this cache owns
//! the results so that a name is resolved once per session and reused.  A
//! failed resolution is not recorded, so it is retried on next use.

use vstd::prelude::*;

verus! {

/// One resolved method: its name and its numeric call identifier.
struct CacheEntry {
    name: String,
    id: i32,
}

/// A name-to-identifier cache with at most one entry per name.
pub struct NameCache {
    entries: Vec<CacheEntry>,
}

impl NameCache {
    /// Whether some entry holds this name.
    pub closed spec fn knows(self, name: Seq<char>) -> bool {
        exists|i: int| 0 <= i < self.entries@.len() && self.entries@[i].name@ == name
    }

    /// Whether some entry maps this name to this identifier.
    pub closed spec fn maps(self, name: Seq<char>, id: i32) -> bool {
        exists|i: int|
            0 <= i < self.entries@.len() && self.entries@[i].name@ == name
                && self.entries@[i].id == id
    }

    /// Well-formedness: no name occurs twice, so each lookup is
    /// deterministic.
    pub closed spec fn wf(self) -> bool {
        forall|i: int, j: int|
            0 <= i < j < self.entries@.len() ==> self.entries@[i].name@ != self.entries@[j].name@
    }

    /// An empty cache.
    pub fn new() -> (c: NameCache)
        ensures
            c.wf(),
            forall|n: Seq<char>| !c.knows(n),
    {
        NameCache { entries: Vec::new() }
    }

    /// The cached identifier for a name, if any.
    pub fn lookup(&self, name: &str) -> (r: Option<i32>)
        ensures
            match r {
                Some(id) => self.maps(name@, id),
                None => !self.knows(name@),
            },
    {
        let key: String = name.to_owned();
        let mut i: usize = 0;
        while i < self.entries.len()
            invariant
                key@ == name@,
                i <= self.entries@.len(),
                forall|j: int| 0 <= j < i ==> self.entries@[j].name@ != name@,
            decreases self.entries@.len() - i,
        {
            if self.entries[i].name == key {
                proof {
                    assert(self.entries@[i as int].name@ == name@);
                }
                return Some(self.entries[i].id);
            }
            i = i + 1;
        }
        None
    }

    /// Record a successful resolution.  The first recorded identifier for a
    /// name wins; a name already known leaves the cache untouched, and every
    /// earlier entry is kept either way.
    pub fn record(&mut self, name: &str, id: i32)
        requires
            old(self).wf(),
        ensures
            final(self).wf(),
            final(self).knows(name@),
            !old(self).knows(name@) ==> final(self).maps(name@, id),
            old(self).knows(name@) ==> *final(self) == *old(self),
            forall|n: Seq<char>, other: i32|
                old(self).maps(n, other) ==> final(self).maps(n, other),
    {
        match self.lookup(name) {
            Some(_) => {},
            None => {
                let ghost before: Seq<CacheEntry> = self.entries@;
                self.entries.push(CacheEntry { name: name.to_owned(), id });
                proof {
                    let last: int = before.len() as int;
                    assert(self.entries@[last].name@ == name@);
                    assert forall|n: Seq<char>, other: i32|
                        old(self).maps(n, other) implies self.maps(n, other) by {
                        let w: int = choose|w: int|
                            0 <= w < before.len() && before[w].name@ == n && before[w].id
                                == other;
                        assert(self.entries@[w].name@ == n && self.entries@[w].id == other);
                    }
                }
            },
        }
    }
}

} // verus!
