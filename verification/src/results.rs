//! The shared result collection of a crawl.
//!
//! A `ResultSet` is jointly owned by all crawl units for the duration of one
//! crawl: the surrounding program guards it with a mutual-exclusion
//! mechanism, so every `append` runs as a single critical section. The
//! contracts here make each append exact — it keeps every prior entry and
//! adds exactly the appended one — which is what rules out lost or
//! duplicated entries under that discipline. Entries may stand in any order:
//! units complete at different times.

use vstd::prelude::*;
use vstd::seq_lib::lemma_multiset_commutative;

verus! {

/// One crawl unit's product: a `(url, title)` pair, produced exactly once
/// per successful unit and never mutated after creation.
pub struct ResultEntry {
    pub url: String,
    pub title: String,
}

impl View for ResultEntry {
    type V = (Seq<char>, Seq<char>);

    open spec fn view(&self) -> (Seq<char>, Seq<char>) {
        (self.url@, self.title@)
    }
}

/// The shared mutable collection of `ResultEntry`, modelled as the sequence
/// of entries in the order they were appended.
pub struct ResultSet {
    entries: Vec<ResultEntry>,
}

impl View for ResultSet {
    type V = Seq<(Seq<char>, Seq<char>)>;

    closed spec fn view(&self) -> Seq<(Seq<char>, Seq<char>)> {
        self.entries@.map_values(|e: ResultEntry| e@)
    }
}

impl ResultSet {
    /// An empty collection, as a crawl starts with.
    pub fn new() -> (r: Self)
        ensures
            r@ == Seq::<(Seq<char>, Seq<char>)>::empty(),
    {
        let r = ResultSet { entries: Vec::new() };
        proof {
            assert(r@ =~= Seq::<(Seq<char>, Seq<char>)>::empty());
        }
        r
    }

    /// Appends one entry: every prior entry stays, at its place, and the new
    /// entry stands at the end. Run under mutual exclusion, this is the
    /// write-once append of a successful crawl unit.
    pub fn append(&mut self, entry: ResultEntry)
        ensures
            final(self)@ == old(self)@.push(entry@),
    {
        let ghost before = self.entries@;
        self.entries.push(entry);
        proof {
            assert(self@ =~= before.map_values(|e: ResultEntry| e@).push(entry@));
        }
    }

    /// The number of entries accumulated so far.
    pub fn len(&self) -> (n: usize)
        ensures
            n == self@.len(),
    {
        self.entries.len()
    }

    /// Whether no entry has been appended yet.
    pub fn is_empty(&self) -> (b: bool)
        ensures
            b == (self@.len() == 0),
    {
        self.entries.len() == 0
    }

    /// Read access to one entry, safe to use concurrently with in-flight
    /// units as long as the caller holds the same mutual exclusion that
    /// appends do.
    pub fn get(&self, i: usize) -> (e: &ResultEntry)
        requires
            i < self@.len(),
        ensures
            e@ == self@[i as int],
    {
        &self.entries[i]
    }
}

/// Appends never drop or duplicate an entry: a batch of appends, in whatever
/// order the units complete, turns the collection's entries from `before`
/// into `before + appended`, whose length grew by exactly the number of
/// appends and whose entries are exactly the old ones together with the
/// appended ones, multiplicities included.
pub proof fn lemma_appends_exact(
    before: Seq<(Seq<char>, Seq<char>)>,
    appended: Seq<(Seq<char>, Seq<char>)>,
)
    ensures
        (before + appended).len() == before.len() + appended.len(),
        (before + appended).to_multiset() == before.to_multiset().add(appended.to_multiset()),
        forall|i: int| 0 <= i < before.len() ==> (before + appended)[i] == before[i],
{
    lemma_multiset_commutative(before, appended);
}

} // verus!
