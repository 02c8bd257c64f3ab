//! Registry-level laws, stated over the abstract registry value.
//!
//! Of the operations in [`crate::ops`], only `register_machine` ever changes
//! `machine_count` or the machine-ID index — every other operation's
//! contract leaves both exactly as they were. A whole history of the
//! registry index is therefore captured by the sequence of registration
//! attempts made against it, which is what the laws here quantify over.

use vstd::prelude::*;
use crate::records::AccountId;
use crate::records::machine_id_within_bound;
use crate::registry::RegistryView;
use crate::registry::register_accepted;

verus! {

/// One registration attempt: the machine ID offered and the identity of the
/// record slot it would resolve to.
pub ghost struct RegisterAttempt {
    pub machine_id: Seq<char>,
    pub machine_key: AccountId,
}

/// The registry just after `initialize(authority)`: all counters zero and an
/// empty index.
pub open spec fn initial_registry(authority: AccountId) -> RegistryView {
    RegistryView {
        authority: authority,
        machine_count: 0,
        total_data_uploads: 0,
        data_request_count: 0,
        machines: Map::empty(),
    }
}

/// What one registration attempt does to the registry: an accepted attempt
/// adds its entry and bumps `machine_count`; a rejected one changes nothing.
pub open spec fn register_step(s: RegistryView, a: RegisterAttempt) -> RegistryView {
    if register_accepted(s.machines, a.machine_id) {
        RegistryView {
            machine_count: s.machine_count + 1,
            machines: s.machines.insert(a.machine_id, a.machine_key),
            ..s
        }
    } else {
        s
    }
}

/// The registry after a sequence of registration attempts.
pub open spec fn run_registers(s: RegistryView, attempts: Seq<RegisterAttempt>) -> RegistryView
    decreases attempts.len(),
{
    if attempts.len() == 0 {
        s
    } else {
        register_step(run_registers(s, attempts.drop_last()), attempts.last())
    }
}

/// How many of a sequence of registration attempts are accepted, each judged
/// against the registry as it stands when that attempt is made.
pub open spec fn count_accepted(s: RegistryView, attempts: Seq<RegisterAttempt>) -> nat
    decreases attempts.len(),
{
    if attempts.len() == 0 {
        0
    } else {
        count_accepted(s, attempts.drop_last()) + (if register_accepted(
            run_registers(s, attempts.drop_last()).machines,
            attempts.last().machine_id,
        ) {
            1nat
        } else {
            0nat
        })
    }
}

/// Law: over any sequence of registration attempts, `machine_count` grows by
/// exactly the number of accepted ones.
pub proof fn lemma_machine_count_counts_registrations(
    s: RegistryView,
    attempts: Seq<RegisterAttempt>,
)
    ensures
        run_registers(s, attempts).machine_count == s.machine_count + count_accepted(s, attempts),
    decreases attempts.len(),
{
    if attempts.len() > 0 {
        lemma_machine_count_counts_registrations(s, attempts.drop_last());
    }
}

/// Law: starting from a freshly initialized registry, `machine_count` equals
/// the number of successful `register_machine` calls, for every sequence of
/// operations.
pub proof fn lemma_machine_count_from_initial(
    authority: AccountId,
    attempts: Seq<RegisterAttempt>,
)
    ensures
        run_registers(initial_registry(authority), attempts).machine_count == count_accepted(
            initial_registry(authority),
            attempts,
        ),
{
    lemma_machine_count_counts_registrations(initial_registry(authority), attempts);
}

/// Law: the registry invariant — `machine_count` equals the size of the
/// machine-ID index — holds after any sequence of registration attempts,
/// provided it held at the start (as it does in [`initial_registry`]).
pub proof fn lemma_run_preserves_count_invariant(
    s: RegistryView,
    attempts: Seq<RegisterAttempt>,
)
    requires
        s.machines.dom().finite(),
        s.machine_count == s.machines.len(),
    ensures
        run_registers(s, attempts).machines.dom().finite(),
        run_registers(s, attempts).machine_count == run_registers(s, attempts).machines.len(),
    decreases attempts.len(),
{
    if attempts.len() > 0 {
        lemma_run_preserves_count_invariant(s, attempts.drop_last());
        let before = run_registers(s, attempts.drop_last());
        let a = attempts.last();
        if register_accepted(before.machines, a.machine_id) {
            assert(before.machines.insert(a.machine_id, a.machine_key).dom()
                =~= before.machines.dom().insert(a.machine_id));
        }
    }
}

/// Law: registering the same machine ID twice always fails the second time,
/// regardless of either caller's identity. After an accepted attempt the ID
/// is present and still within its bound, which is exactly the condition
/// under which `register_machine` returns `MachineIdAlreadyExists`.
pub proof fn lemma_duplicate_registration_rejected(
    s: RegistryView,
    a: RegisterAttempt,
    b: RegisterAttempt,
)
    requires
        register_accepted(s.machines, a.machine_id),
        b.machine_id == a.machine_id,
    ensures
        machine_id_within_bound(b.machine_id),
        register_step(s, a).machines.contains_key(b.machine_id),
        !register_accepted(register_step(s, a).machines, b.machine_id),
{
}

} // verus!
