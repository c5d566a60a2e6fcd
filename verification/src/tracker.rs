//! The correlation identifiers that one poller has delivered to the handler.

use vstd::prelude::*;
use vstd::string::*;
use vstd::seq_lib::*;

verus! {

/// The set of correlation identifiers that were handed to the handler during
/// the lifetime of one poller. It only grows.
pub struct DispatchedSet {
    ids: Vec<String>,
}

impl DispatchedSet {
    /// The identifiers in the order in which they were recorded.
    pub closed spec fn recorded(&self) -> Seq<Seq<char>> {
        self.ids@.map_values(|id: String| id@)
    }

    /// No identifier is recorded twice.
    pub closed spec fn well_formed(&self) -> bool {
        self.recorded().no_duplicates()
    }

    /// Creates an empty set.
    pub fn new() -> (r: Self)
        ensures
            r@ == Set::<Seq<char>>::empty(),
            r.well_formed(),
    {
        let r = DispatchedSet { ids: Vec::new() };
        assert(r.recorded() =~= Seq::<Seq<char>>::empty());
        assert(r.recorded().to_set() =~= Set::<Seq<char>>::empty());
        r
    }

    /// Whether the identifier has been recorded.
    pub fn contains(&self, id: &str) -> (r: bool)
        ensures
            r == self@.contains(id@),
    {
        let wanted = id.to_owned();
        let mut i: usize = 0;
        while i < self.ids.len()
            invariant
                i <= self.ids.len(),
                wanted@ == id@,
                forall|j: int| 0 <= j < i ==> self.recorded()[j] != id@,
            decreases self.ids.len() - i,
        {
            if self.ids[i] == wanted {
                assert(self.recorded()[i as int] == id@);
                assert(self.recorded().contains(id@));
                return true;
            }
            i += 1;
        }
        assert(!self.recorded().contains(id@));
        false
    }

    /// Records the identifier. Returns whether it was new.
    pub fn insert(&mut self, id: &str) -> (r: bool)
        ensures
            final(self)@ == old(self)@.insert(id@),
            r == !old(self)@.contains(id@),
            old(self).well_formed() ==> final(self).well_formed(),
    {
        if self.contains(id) {
            assert(self@.insert(id@) =~= self@);
            false
        } else {
            let ghost before = self.recorded();
            self.ids.push(id.to_owned());
            proof {
                assert(self.recorded() =~= before.push(id@));
                assert(self.recorded().to_set() =~= before.to_set().insert(id@)) by {
                    assert forall|t: Seq<char>| self.recorded().contains(t) <==> (before.contains(t) || t == id@) by {
                        if before.contains(t) {
                            let j = choose|j: int| 0 <= j < before.len() && before[j] == t;
                            assert(self.recorded()[j] == t);
                        }
                        if t == id@ {
                            assert(self.recorded()[before.len() as int] == t);
                        }
                    }
                }
            }
            true
        }
    }

    /// The number of identifiers recorded.
    pub fn len(&self) -> (r: usize)
        requires
            self.well_formed(),
        ensures
            r == self@.len(),
    {
        proof {
            self.recorded().unique_seq_to_set();
        }
        self.ids.len()
    }
}

impl View for DispatchedSet {
    type V = Set<Seq<char>>;

    closed spec fn view(&self) -> Set<Seq<char>> {
        self.recorded().to_set()
    }
}

} // verus!
