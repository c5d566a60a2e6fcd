//! The table of tenants that have a poller, with the liveness flag of each.

use vstd::prelude::*;
use vstd::string::*;

verus! {

/// The liveness of one tenant's poller.
#[derive(Debug)]
pub struct TenantPollerState {
    tenant_id: String,
    alive: bool,
}

impl TenantPollerState {
    /// Returns the tenant's identifier.
    pub fn tenant_id(&self) -> (r: &str)
        ensures
            r@ == self.id(),
    {
        self.tenant_id.as_str()
    }

    /// Returns whether the tenant's poller is to go on.
    pub fn alive(&self) -> (r: bool)
        ensures
            r == self.flag(),
    {
        self.alive
    }

    /// The tenant's identifier.
    pub closed spec fn id(&self) -> Seq<char> {
        self.tenant_id@
    }

    /// Whether the tenant's poller is to go on.
    pub closed spec fn flag(&self) -> bool {
        self.alive
    }
}

/// The table of liveness flags, keyed by tenant. A tenant in the table has a
/// poller that runs or is about to stop; a tenant that is not in it has none.
pub struct PollerTable {
    entries: Vec<TenantPollerState>,
}

/// The table after a stop request for a tenant: the flag of a tenant that is
/// in the table is cleared, and for any other tenant nothing changes.
pub open spec fn stopped(table: Map<Seq<char>, bool>, tenant_id: Seq<char>) -> Map<Seq<char>, bool> {
    if table.contains_key(tenant_id) {
        table.insert(tenant_id, false)
    } else {
        table
    }
}

/// Whether the poller of a tenant is to go on: the tenant is in the table,
/// and its flag is set.
pub open spec fn is_live(table: Map<Seq<char>, bool>, tenant_id: Seq<char>) -> bool {
    table.contains_key(tenant_id) && table[tenant_id]
}

impl View for PollerTable {
    type V = Map<Seq<char>, bool>;

    closed spec fn view(&self) -> Map<Seq<char>, bool> {
        Map::new(
            |t: Seq<char>| self.ids().contains(t),
            |t: Seq<char>| self.entries@[self.ids().index_of(t)].alive,
        )
    }
}

impl PollerTable {
    /// The tenants of the table, in the order of its entries.
    pub closed spec fn ids(&self) -> Seq<Seq<char>> {
        self.entries@.map_values(|e: TenantPollerState| e.tenant_id@)
    }

    /// No tenant has two entries.
    pub closed spec fn well_formed(&self) -> bool {
        self.ids().no_duplicates()
    }

    proof fn lemma_entry(&self, i: int)
        requires
            self.well_formed(),
            0 <= i < self.entries@.len(),
        ensures
            self@.contains_key(self.entries@[i].tenant_id@),
            self@[self.entries@[i].tenant_id@] == self.entries@[i].alive,
    {
        let t = self.entries@[i].tenant_id@;
        assert(self.ids()[i] == t);
        assert(self.ids().contains(t));
        let j = self.ids().index_of(t);
        assert(0 <= j < self.ids().len() && self.ids()[j] == t);
        assert(i == j);
    }

    /// Creates an empty table.
    pub fn new() -> (r: Self)
        ensures
            r.well_formed(),
            r@ == Map::<Seq<char>, bool>::empty(),
    {
        let r = PollerTable { entries: Vec::new() };
        assert(r.ids() =~= Seq::<Seq<char>>::empty());
        assert(r@ =~= Map::<Seq<char>, bool>::empty());
        r
    }

    fn find(&self, tenant_id: &str) -> (r: Option<usize>)
        ensures
            match r {
                Some(i) => i < self.entries@.len() && self.entries@[i as int].tenant_id@
                    == tenant_id@,
                None => !self.ids().contains(tenant_id@),
            },
    {
        let wanted = tenant_id.to_owned();
        let mut i: usize = 0;
        while i < self.entries.len()
            invariant
                i <= self.entries.len(),
                wanted@ == tenant_id@,
                forall|j: int| 0 <= j < i ==> self.ids()[j] != tenant_id@,
            decreases self.entries.len() - i,
        {
            if self.entries[i].tenant_id == wanted {
                return Some(i);
            }
            i += 1;
        }
        None
    }

    /// Returns whether no tenant has two entries. Every table that is made and
    /// changed through the functions of this type is so; a caller that holds a
    /// table behind a lock can test it before it hands the table on.
    pub fn is_well_formed(&self) -> (r: bool)
        ensures
            r == self.well_formed(),
    {
        let mut i: usize = 0;
        while i < self.entries.len()
            invariant
                i <= self.entries.len(),
                forall|a: int, b: int| 0 <= a < b < i ==> self.ids()[a] != self.ids()[b],
            decreases self.entries.len() - i,
        {
            let mut j: usize = 0;
            while j < i
                invariant
                    j <= i < self.entries.len(),
                    forall|a: int| 0 <= a < j ==> self.ids()[a] != self.ids()[i as int],
                decreases i - j,
            {
                if self.entries[j].tenant_id == self.entries[i].tenant_id {
                    assert(self.ids()[j as int] == self.ids()[i as int]);
                    return false;
                }
                j += 1;
            }
            i += 1;
        }
        true
    }

    /// Returns the number of tenants in the table.
    pub fn len(&self) -> (r: usize)
        requires
            self.well_formed(),
        ensures
            r == self@.dom().len(),
            self@.dom().finite(),
    {
        proof {
            self.ids().unique_seq_to_set();
            assert(self@.dom() =~= self.ids().to_set());
        }
        self.entries.len()
    }

    /// Returns whether the tenant is in the table.
    pub fn contains(&self, tenant_id: &str) -> (r: bool)
        ensures
            r == self@.contains_key(tenant_id@),
    {
        match self.find(tenant_id) {
            Some(i) => {
                assert(self.ids()[i as int] == tenant_id@);
                true
            },
            None => false,
        }
    }

    /// Returns the state of the tenant, if it is in the table.
    pub fn get(&self, tenant_id: &str) -> (r: Option<&TenantPollerState>)
        requires
            self.well_formed(),
        ensures
            r is Some <==> self@.contains_key(tenant_id@),
            r matches Some(state) ==> state.id() == tenant_id@ && state.flag() == self@[tenant_id@],
    {
        match self.find(tenant_id) {
            Some(i) => {
                proof {
                    self.lemma_entry(i as int);
                }
                Some(&self.entries[i])
            },
            None => None,
        }
    }

    /// Returns whether the poller of the tenant is to go on.
    pub fn is_alive(&self, tenant_id: &str) -> (r: bool)
        requires
            self.well_formed(),
        ensures
            r == is_live(self@, tenant_id@),
    {
        match self.find(tenant_id) {
            Some(i) => {
                proof {
                    self.lemma_entry(i as int);
                }
                self.entries[i].alive
            },
            None => false,
        }
    }

    fn put(&mut self, tenant_id: &str, alive: bool)
        requires
            old(self).well_formed(),
        ensures
            final(self).well_formed(),
            final(self)@ == old(self)@.insert(tenant_id@, alive),
    {
        let entry = TenantPollerState { tenant_id: tenant_id.to_owned(), alive };
        match self.find(tenant_id) {
            Some(i) => {
                self.entries.set(i, entry);
                proof {
                    assert(self.ids() =~= old(self).ids());
                    assert forall|t: Seq<char>| self.ids().contains(t) implies #[trigger] self@[t]
                        == old(self)@.insert(tenant_id@, alive)[t] by {
                        let j = self.ids().index_of(t);
                        assert(0 <= j < self.ids().len() && self.ids()[j] == t);
                        self.lemma_entry(j);
                        old(self).lemma_entry(j);
                        if t == tenant_id@ {
                            assert(self.ids()[i as int] == t);
                            assert(j == i);
                        }
                    }
                    assert(self.ids().contains(tenant_id@)) by {
                        assert(self.ids()[i as int] == tenant_id@);
                    }
                    assert(self@ =~= old(self)@.insert(tenant_id@, alive));
                }
            },
            None => {
                self.entries.push(entry);
                proof {
                    let n = old(self).entries@.len() as int;
                    assert(self.ids() =~= old(self).ids().push(tenant_id@));
                    assert forall|t: Seq<char>| self.ids().contains(t) <==> (old(self).ids().contains(t)
                        || t == tenant_id@) by {
                        if old(self).ids().contains(t) {
                            let j = old(self).ids().index_of(t);
                            assert(self.ids()[j] == t);
                        }
                        if t == tenant_id@ {
                            assert(self.ids()[n] == t);
                        }
                    }
                    assert forall|t: Seq<char>| self.ids().contains(t) implies #[trigger] self@[t]
                        == old(self)@.insert(tenant_id@, alive)[t] by {
                        let j = self.ids().index_of(t);
                        assert(0 <= j < self.ids().len() && self.ids()[j] == t);
                        self.lemma_entry(j);
                        if j < n {
                            old(self).lemma_entry(j);
                        }
                    }
                    assert(self@ =~= old(self)@.insert(tenant_id@, alive));
                }
            },
        }
    }

    /// Enters the tenant with its flag set. A tenant that is in the table
    /// already keeps its one entry, and its flag is set again.
    pub fn start(&mut self, tenant_id: &str)
        requires
            old(self).well_formed(),
        ensures
            final(self).well_formed(),
            final(self)@ == old(self)@.insert(tenant_id@, true),
    {
        self.put(tenant_id, true);
    }

    /// Clears the flag of the tenant, so that its poller stops at its next
    /// iteration boundary. Returns whether the tenant is in the table; for a
    /// tenant that is not, nothing changes.
    pub fn stop(&mut self, tenant_id: &str) -> (known: bool)
        requires
            old(self).well_formed(),
        ensures
            final(self).well_formed(),
            final(self)@ == stopped(old(self)@, tenant_id@),
            known == old(self)@.contains_key(tenant_id@),
    {
        if self.contains(tenant_id) {
            self.put(tenant_id, false);
            true
        } else {
            false
        }
    }

    /// Takes the tenant out of the table: its poller has exited.
    pub fn remove(&mut self, tenant_id: &str)
        requires
            old(self).well_formed(),
        ensures
            final(self).well_formed(),
            final(self)@ == old(self)@.remove(tenant_id@),
    {
        match self.find(tenant_id) {
            Some(i) => {
                self.entries.remove(i);
                proof {
                    let before = old(self).ids();
                    assert(self.ids() =~= before.remove(i as int));
                    assert(before[i as int] == tenant_id@);
                    assert forall|t: Seq<char>| self.ids().contains(t) <==> (before.contains(t) && t
                        != tenant_id@) by {
                        if self.ids().contains(t) {
                            let j = self.ids().index_of(t);
                            assert(0 <= j < self.ids().len() && self.ids()[j] == t);
                            if j < i {
                                assert(before[j] == t);
                            } else {
                                assert(before[j + 1] == t);
                            }
                        }
                        if before.contains(t) && t != tenant_id@ {
                            let j = before.index_of(t);
                            assert(0 <= j < before.len() && before[j] == t);
                            if j < i {
                                assert(self.ids()[j] == t);
                            } else {
                                assert(self.ids()[j - 1] == t);
                            }
                        }
                    }
                    assert(self.ids().no_duplicates());
                    assert forall|t: Seq<char>| self.ids().contains(t) implies #[trigger] self@[t]
                        == old(self)@.remove(tenant_id@)[t] by {
                        let j = self.ids().index_of(t);
                        assert(0 <= j < self.ids().len() && self.ids()[j] == t);
                        self.lemma_entry(j);
                        if j < i {
                            old(self).lemma_entry(j);
                        } else {
                            old(self).lemma_entry(j + 1);
                        }
                    }
                    assert(self@ =~= old(self)@.remove(tenant_id@));
                }
            },
            None => {
                assert(self@ =~= old(self)@.remove(tenant_id@));
            },
        }
    }
}

} // verus!
