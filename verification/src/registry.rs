//! The global registry: counters and the machine-ID index.

use vstd::prelude::*;
use crate::index::MachineIndex;
use crate::records::AccountId;
use crate::records::machine_id_within_bound;

verus! {

/// The single global record. Created once by [`crate::ops::initialize`];
/// every counter is monotonically non-decreasing.
pub struct SystemState {
    /// Identity of the deployer/administrator.
    pub authority: AccountId,
    /// Number of registered machines; always equals the size of `machines`.
    pub machine_count: u64,
    /// Number of successful uploads across all machines.
    pub total_data_uploads: u64,
    /// Number of usage events across all readings.
    pub data_request_count: u64,
    /// The machine-ID index; keys unique, insertion order irrelevant.
    pub machines: MachineIndex,
}

/// The abstract value of a [`SystemState`]: plain counters and the finite
/// map the index stands for.
pub ghost struct RegistryView {
    pub authority: AccountId,
    pub machine_count: nat,
    pub total_data_uploads: nat,
    pub data_request_count: nat,
    pub machines: Map<Seq<char>, AccountId>,
}

impl View for SystemState {
    type V = RegistryView;

    open spec fn view(&self) -> RegistryView {
        RegistryView {
            authority: self.authority,
            machine_count: self.machine_count as nat,
            total_data_uploads: self.total_data_uploads as nat,
            data_request_count: self.data_request_count as nat,
            machines: self.machines@,
        }
    }
}

/// Whether a registration attempt under `machine_id` is accepted against the
/// given index: the ID is within its bound and not yet taken.
pub open spec fn register_accepted(
    machines: Map<Seq<char>, AccountId>,
    machine_id: Seq<char>,
) -> bool {
    machine_id_within_bound(machine_id) && !machines.contains_key(machine_id)
}

impl SystemState {
    /// Well-formedness: the index keys are unique and `machine_count`
    /// counts exactly the registered machines.
    pub open spec fn wf(self) -> bool {
        &&& self.machines.wf()
        &&& self.machine_count == self.machines.num_entries()
    }

    /// The registry invariant: `machine_count` equals the size of the
    /// machine-ID index at all times.
    pub proof fn lemma_machine_count_is_index_size(self)
        requires
            self.wf(),
        ensures
            self@.machines.dom().finite(),
            self@.machines.len() == self@.machine_count,
    {
        self.machines.lemma_size();
    }
}

} // verus!
