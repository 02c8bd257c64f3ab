//! The registry's machine-ID index: a keyed collection from machine ID to
//! the identity of the registered machine record.
//!
//! No operation needs an ordering guarantee, so the index is a plain vector
//! of entries whose keys are kept unique; its abstract value is the map
//! [`View::view`] returns.

use vstd::prelude::*;
use crate::records::AccountId;

verus! {

/// One entry of the index: a machine ID and the record identity it resolves
/// to.
pub struct MachineEntry {
    /// The registry-unique machine ID.
    pub machine_id: String,
    /// Identity of the machine record registered under that ID.
    pub machine: AccountId,
}

/// The map an entry sequence stands for. A later entry would shadow an
/// earlier one with the same key; [`MachineIndex::wf`] rules that out.
spec fn index_map_of(entries: Seq<MachineEntry>) -> Map<Seq<char>, AccountId>
    decreases entries.len(),
{
    if entries.len() == 0 {
        Map::empty()
    } else {
        index_map_of(entries.drop_last()).insert(
            entries.last().machine_id@,
            entries.last().machine,
        )
    }
}

/// The machine-ID index. Abstractly a finite map from ID (as a character
/// sequence) to record identity; keys are unique and insertion order is
/// irrelevant to every operation.
pub struct MachineIndex {
    entries: Vec<MachineEntry>,
}

impl View for MachineIndex {
    type V = Map<Seq<char>, AccountId>;

    closed spec fn view(&self) -> Map<Seq<char>, AccountId> {
        index_map_of(self.entries@)
    }
}

impl MachineIndex {
    /// Well-formedness: no two entries share a machine ID.
    pub closed spec fn wf(self) -> bool {
        forall|i: int, j: int|
            0 <= i < j < self.entries@.len()
                ==> self.entries@[i].machine_id@ != self.entries@[j].machine_id@
    }

    /// How many machines the index holds.
    pub closed spec fn num_entries(self) -> nat {
        self.entries@.len()
    }

    /// An empty index.
    pub fn new() -> (r: MachineIndex)
        ensures
            r.wf(),
            r.num_entries() == 0,
            r@ == Map::<Seq<char>, AccountId>::empty(),
    {
        MachineIndex { entries: Vec::new() }
    }

    /// Whether `machine_id` is already registered, by exact, case-sensitive
    /// match.
    pub fn contains_key(&self, machine_id: &String) -> (r: bool)
        ensures
            r == self@.contains_key(machine_id@),
    {
        let n = self.entries.len();
        let mut i: usize = 0;
        while i < n
            invariant
                n == self.entries@.len(),
                0 <= i <= n,
                forall|j: int| 0 <= j < i ==> self.entries@[j].machine_id@ != machine_id@,
            decreases n - i,
        {
            if self.entries[i].machine_id == *machine_id {
                proof {
                    lemma_index_map_contains(self.entries@, machine_id@);
                }
                return true;
            }
            i = i + 1;
        }
        proof {
            lemma_index_map_contains(self.entries@, machine_id@);
        }
        false
    }

    /// The record identity registered under `machine_id`, if any.
    pub fn get(&self, machine_id: &String) -> (r: Option<AccountId>)
        requires
            self.wf(),
        ensures
            r matches Some(k) ==> self@.contains_key(machine_id@) && k == self@[machine_id@],
            r is None ==> !self@.contains_key(machine_id@),
    {
        let n = self.entries.len();
        let mut i: usize = 0;
        while i < n
            invariant
                self.wf(),
                n == self.entries@.len(),
                0 <= i <= n,
                forall|j: int| 0 <= j < i ==> self.entries@[j].machine_id@ != machine_id@,
            decreases n - i,
        {
            if self.entries[i].machine_id == *machine_id {
                proof {
                    lemma_index_map_value(self.entries@, machine_id@, i as int);
                }
                return Some(self.entries[i].machine);
            }
            i = i + 1;
        }
        proof {
            lemma_index_map_contains(self.entries@, machine_id@);
        }
        None
    }

    /// Add a fresh machine ID to the index.
    pub fn insert(&mut self, machine_id: String, machine: AccountId)
        requires
            old(self).wf(),
            !old(self)@.contains_key(machine_id@),
        ensures
            final(self).wf(),
            final(self).num_entries() == old(self).num_entries() + 1,
            final(self)@ == old(self)@.insert(machine_id@, machine),
    {
        proof {
            lemma_index_map_contains(self.entries@, machine_id@);
        }
        let ghost pre = self.entries@;
        self.entries.push(MachineEntry { machine_id, machine });
        proof {
            assert(self.entries@.drop_last() =~= pre);
            assert(final(self)@ =~= old(self)@.insert(
                self.entries@.last().machine_id@,
                machine,
            ));
        }
    }

    /// The index is a finite map with exactly one key per entry.
    pub proof fn lemma_size(self)
        requires
            self.wf(),
        ensures
            self@.dom().finite(),
            self@.len() == self.num_entries(),
    {
        lemma_index_map_finite_len(self.entries@);
    }
}

/// A key is in the map exactly when some entry carries it.
proof fn lemma_index_map_contains(entries: Seq<MachineEntry>, id: Seq<char>)
    ensures
        index_map_of(entries).contains_key(id) <==> (exists|i: int|
            0 <= i < entries.len() && entries[i].machine_id@ == id),
    decreases entries.len(),
{
    if entries.len() > 0 {
        lemma_index_map_contains(entries.drop_last(), id);
        if entries.last().machine_id@ == id {
            assert(entries[entries.len() - 1].machine_id@ == id);
        } else if exists|i: int| 0 <= i < entries.drop_last().len()
            && entries.drop_last()[i].machine_id@ == id {
            let i = choose|i: int| 0 <= i < entries.drop_last().len()
                && entries.drop_last()[i].machine_id@ == id;
            assert(entries[i].machine_id@ == id);
        } else if exists|i: int| 0 <= i < entries.len() && entries[i].machine_id@ == id {
            let i = choose|i: int| 0 <= i < entries.len() && entries[i].machine_id@ == id;
            assert(entries.drop_last()[i].machine_id@ == id);
        }
    }
}

/// With unique keys, the entry carrying a key decides its map value.
proof fn lemma_index_map_value(entries: Seq<MachineEntry>, id: Seq<char>, i: int)
    requires
        forall|p: int, q: int|
            0 <= p < q < entries.len() ==> entries[p].machine_id@ != entries[q].machine_id@,
        0 <= i < entries.len(),
        entries[i].machine_id@ == id,
    ensures
        index_map_of(entries).contains_key(id),
        index_map_of(entries)[id] == entries[i].machine,
    decreases entries.len(),
{
    if i == entries.len() - 1 {
    } else {
        assert(entries.last().machine_id@ != id);
        assert(entries.drop_last()[i].machine_id@ == id);
        lemma_index_map_value(entries.drop_last(), id, i);
    }
}

/// With unique keys, the map has exactly one key per entry.
proof fn lemma_index_map_finite_len(entries: Seq<MachineEntry>)
    requires
        forall|p: int, q: int|
            0 <= p < q < entries.len() ==> entries[p].machine_id@ != entries[q].machine_id@,
    ensures
        index_map_of(entries).dom().finite(),
        index_map_of(entries).len() == entries.len(),
    decreases entries.len(),
{
    if entries.len() > 0 {
        lemma_index_map_finite_len(entries.drop_last());
        lemma_index_map_contains(entries.drop_last(), entries.last().machine_id@);
        assert(forall|j: int| 0 <= j < entries.drop_last().len()
            ==> entries.drop_last()[j].machine_id@ != entries.last().machine_id@);
        assert(!index_map_of(entries.drop_last()).contains_key(entries.last().machine_id@));
    }
}

} // verus!
