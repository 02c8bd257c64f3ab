//! The typed failures an operation can surface to its caller.

use vstd::prelude::*;

verus! {

/// Every way an operation can fail. Each failure is terminal for the
/// invoking operation: no state change is observable when one is returned.
#[derive(Clone, Copy, Debug, PartialEq, Eq, Structural)]
pub enum ErrorCode {
    /// `register_machine` was given a machine ID that the registry already
    /// holds (compared by exact, case-sensitive match).
    MachineIdAlreadyExists,
    /// The caller of an owner-gated operation is not the record's owner.
    Unauthorized,
    /// `upload_data` was invoked on a machine whose `is_active` flag is off.
    MachineNotActive,
    /// `claim_rewards` was invoked while the reward balance is zero.
    NoRewardsAvailable,
    /// `register_machine` was given a machine ID over the declared bound.
    MachineIdTooLong,
    /// `upload_data` was given an image URL over the declared bound.
    ImageUrlTooLong,
}

} // verus!
