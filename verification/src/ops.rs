//! The six entry points of the core.
//!
//! Each operation is one atomic transition against the records handed to
//! it: the host resolves and authenticates the record handles, supplies the
//! invoking caller's verified identity and a monotonic clock reading, and
//! serializes concurrent invocations. Any precondition failure aborts the
//! whole operation before any mutation is observable.

use vstd::prelude::*;
use vstd::string::StrSliceExecFns;
use crate::errors::ErrorCode;
use crate::index::MachineIndex;
use crate::model::RegisterAttempt;
use crate::model::initial_registry;
use crate::model::register_step;
use crate::records::AccountId;
use crate::records::IoTData;
use crate::records::MAX_IMAGE_URL_BYTES;
use crate::records::MAX_MACHINE_ID_CHARS;
use crate::records::Machine;
use crate::records::image_url_within_bound;
use crate::records::machine_id_within_bound;
use crate::registry::SystemState;
use crate::registry::register_accepted;
use crate::rewards::DATA_USE_REWARD;
use crate::rewards::spec_upload_reward;
use crate::rewards::upload_reward;

verus! {

/// Create the global registry, owned by `authority`, with all counters zero
/// and an empty machine index. The host creates the registry slot exactly
/// once; guarding against a second initialization of the same slot is its
/// concern, not the core's.
pub fn initialize(authority: AccountId) -> (state: SystemState)
    ensures
        state.wf(),
        state@ == initial_registry(authority),
        state.authority == authority,
        state.machine_count == 0,
        state.total_data_uploads == 0,
        state.data_request_count == 0,
        state@.machines == Map::<Seq<char>, AccountId>::empty(),
{
    SystemState {
        authority,
        machine_count: 0,
        total_data_uploads: 0,
        data_request_count: 0,
        machines: MachineIndex::new(),
    }
}

/// Register a new machine under `machine_id`, owned by `caller`, in the
/// record slot the host allocated under `machine_key`.
///
/// Fails with `MachineIdTooLong` when the ID is over its bound, and with
/// `MachineIdAlreadyExists` when the ID is already taken (by exact,
/// case-sensitive match); either failure leaves the registry untouched. On
/// success the new record starts inactive with every counter and timestamp
/// zero, the index gains the new entry, and `machine_count` grows by one.
pub fn register_machine(
    state: &mut SystemState,
    machine_id: String,
    machine_key: AccountId,
    caller: AccountId,
) -> (r: Result<Machine, ErrorCode>)
    requires
        old(state).wf(),
        old(state).machine_count < u64::MAX,
    ensures
        final(state).wf(),
        r is Ok <==> register_accepted(old(state)@.machines, machine_id@),
        (r == Err::<Machine, ErrorCode>(ErrorCode::MachineIdTooLong)) <==> !machine_id_within_bound(
            machine_id@,
        ),
        (r == Err::<Machine, ErrorCode>(ErrorCode::MachineIdAlreadyExists)) <==> (
        machine_id_within_bound(machine_id@) && old(state)@.machines.contains_key(machine_id@)),
        r is Err ==> *final(state) == *old(state),
        final(state)@ == register_step(
            old(state)@,
            (RegisterAttempt { machine_id: machine_id@, machine_key }),
        ),
        r matches Ok(m) ==> ({
            &&& m.owner == caller
            &&& m.machine_id == machine_id
            &&& m.is_active == false
            &&& m.data_count == 0
            &&& m.image_count == 0
            &&& m.rewards_earned == 0
            &&& m.last_data_timestamp == 0
            &&& m.last_image_timestamp == 0
            &&& m.data_used_count == 0
            &&& final(state).authority == old(state).authority
            &&& final(state).machine_count == old(state).machine_count + 1
            &&& final(state).total_data_uploads == old(state).total_data_uploads
            &&& final(state).data_request_count == old(state).data_request_count
            &&& final(state)@.machines == old(state)@.machines.insert(machine_id@, machine_key)
        }),
{
    if machine_id.as_str().unicode_len() > MAX_MACHINE_ID_CHARS {
        return Err(ErrorCode::MachineIdTooLong);
    }
    if state.machines.contains_key(&machine_id) {
        return Err(ErrorCode::MachineIdAlreadyExists);
    }
    let machine = Machine {
        owner: caller,
        machine_id: machine_id.clone(),
        is_active: false,
        data_count: 0,
        image_count: 0,
        rewards_earned: 0,
        last_data_timestamp: 0,
        last_image_timestamp: 0,
        data_used_count: 0,
    };
    state.machines.insert(machine_id, machine_key);
    state.machine_count = state.machine_count + 1;
    Ok(machine)
}

/// Set the machine active, so that it accepts uploads. Only the owner may;
/// anyone else gets `Unauthorized` and the record is untouched. Idempotent:
/// starting an already-active machine just re-asserts the flag.
pub fn start_machine(machine: &mut Machine, caller: AccountId) -> (r: Result<(), ErrorCode>)
    ensures
        r is Ok <==> caller == old(machine).owner,
        r is Err ==> (r == Err::<(), ErrorCode>(ErrorCode::Unauthorized) && *final(machine)
            == *old(machine)),
        r is Ok ==> *final(machine) == old(machine).with_active(true),
{
    if machine.owner != caller {
        return Err(ErrorCode::Unauthorized);
    }
    machine.is_active = true;
    Ok(())
}

/// Set the machine inactive, so that uploads are rejected. Only the owner
/// may; anyone else gets `Unauthorized` and the record is untouched.
/// Idempotent: stopping an already-inactive machine just re-asserts the
/// flag.
pub fn stop_machine(machine: &mut Machine, caller: AccountId) -> (r: Result<(), ErrorCode>)
    ensures
        r is Ok <==> caller == old(machine).owner,
        r is Err ==> (r == Err::<(), ErrorCode>(ErrorCode::Unauthorized) && *final(machine)
            == *old(machine)),
        r is Ok ==> *final(machine) == old(machine).with_active(false),
{
    if machine.owner != caller {
        return Err(ErrorCode::Unauthorized);
    }
    machine.is_active = false;
    Ok(())
}

/// Record one sensor reading for `machine` (whose record the host resolved
/// under `machine_key`), stamped with the clock reading `now`. Any caller
/// may upload on behalf of an active machine; there is deliberately no
/// ownership gate.
///
/// Fails with `MachineNotActive` when the machine is stopped, and with
/// `ImageUrlTooLong` when the image URL is over its bound; either failure
/// leaves every record untouched. On success the reading is created with a
/// zero usage count, the machine's upload counters and timestamps advance,
/// the registry counts one more upload, and the owner earns the base reward
/// — plus the image bonus and the image bookkeeping when an image URL is
/// attached.
pub fn upload_data(
    state: &mut SystemState,
    machine: &mut Machine,
    machine_key: AccountId,
    now: i64,
    temperature_bits: u64,
    humidity_bits: u64,
    image_url: Option<String>,
) -> (r: Result<IoTData, ErrorCode>)
    requires
        old(state).wf(),
        old(state).total_data_uploads < u64::MAX,
        old(machine).data_count < u64::MAX,
        old(machine).image_count < u64::MAX,
        old(machine).rewards_earned + spec_upload_reward(image_url is Some) <= u64::MAX,
        now >= old(machine).last_data_timestamp,
        now >= old(machine).last_image_timestamp,
    ensures
        final(state).wf(),
        (r == Err::<IoTData, ErrorCode>(ErrorCode::MachineNotActive)) <==> !old(
            machine,
        ).is_active,
        (r == Err::<IoTData, ErrorCode>(ErrorCode::ImageUrlTooLong)) <==> (old(machine).is_active
            && !image_url_within_bound(image_url)),
        r is Ok <==> (old(machine).is_active && image_url_within_bound(image_url)),
        r is Err ==> (*final(state) == *old(state) && *final(machine) == *old(machine)),
        r matches Ok(d) ==> ({
            &&& d.machine == machine_key
            &&& d.timestamp == now
            &&& d.temperature_bits == temperature_bits
            &&& d.humidity_bits == humidity_bits
            &&& d.image_url == image_url
            &&& d.used_count == 0
            &&& final(machine).owner == old(machine).owner
            &&& final(machine).machine_id == old(machine).machine_id
            &&& final(machine).is_active == old(machine).is_active
            &&& final(machine).data_count == old(machine).data_count + 1
            &&& final(machine).last_data_timestamp == now
            &&& final(machine).data_used_count == old(machine).data_used_count
            &&& final(machine).rewards_earned == old(machine).rewards_earned
                + spec_upload_reward(image_url is Some)
            &&& image_url is Some ==> (final(machine).image_count == old(machine).image_count + 1
                && final(machine).last_image_timestamp == now)
            &&& image_url is None ==> (final(machine).image_count == old(machine).image_count
                && final(machine).last_image_timestamp == old(machine).last_image_timestamp)
            &&& final(state).authority == old(state).authority
            &&& final(state).machine_count == old(state).machine_count
            &&& final(state).total_data_uploads == old(state).total_data_uploads + 1
            &&& final(state).data_request_count == old(state).data_request_count
            &&& final(state)@.machines == old(state)@.machines
        }),
{
    if !machine.is_active {
        return Err(ErrorCode::MachineNotActive);
    }
    let has_image = match &image_url {
        Some(url) => {
            if url.as_str().as_bytes().len() > MAX_IMAGE_URL_BYTES {
                return Err(ErrorCode::ImageUrlTooLong);
            }
            true
        },
        None => false,
    };
    let data = IoTData {
        machine: machine_key,
        timestamp: now,
        temperature_bits,
        humidity_bits,
        image_url,
        used_count: 0,
    };
    machine.data_count = machine.data_count + 1;
    machine.last_data_timestamp = now;
    state.total_data_uploads = state.total_data_uploads + 1;
    if has_image {
        machine.image_count = machine.image_count + 1;
        machine.last_image_timestamp = now;
    }
    machine.rewards_earned = machine.rewards_earned + upload_reward(has_image);
    Ok(data)
}

/// Record one usage event against the reading `data`, originating from
/// `machine` (whose record the host resolved under `machine_key`, matching
/// the reading's back-reference). Any caller may; there is deliberately no
/// ownership gate and no failure case. The reading's and machine's usage
/// counters and the registry's request counter each advance by one, and the
/// owner earns the usage reward.
pub fn use_data(
    state: &mut SystemState,
    machine: &mut Machine,
    data: &mut IoTData,
    machine_key: AccountId,
    _caller: AccountId,
)
    requires
        old(state).wf(),
        old(data).machine == machine_key,
        old(state).data_request_count < u64::MAX,
        old(machine).data_used_count < u64::MAX,
        old(machine).rewards_earned + DATA_USE_REWARD <= u64::MAX,
        old(data).used_count < u64::MAX,
    ensures
        final(state).wf(),
        *final(data) == (IoTData { used_count: (old(data).used_count + 1) as u64, ..*old(data) }),
        *final(machine) == (Machine {
            data_used_count: (old(machine).data_used_count + 1) as u64,
            rewards_earned: (old(machine).rewards_earned + DATA_USE_REWARD) as u64,
            ..*old(machine)
        }),
        *final(state) == (SystemState {
            data_request_count: (old(state).data_request_count + 1) as u64,
            ..*old(state)
        }),
{
    data.used_count = data.used_count + 1;
    machine.data_used_count = machine.data_used_count + 1;
    state.data_request_count = state.data_request_count + 1;
    machine.rewards_earned = machine.rewards_earned + DATA_USE_REWARD;
}

/// Claim the machine's accrued rewards. Only the owner may; anyone else
/// gets `Unauthorized`. A zero balance fails with `NoRewardsAvailable`.
/// Either failure leaves the record untouched. On success the whole balance
/// is returned and reset to zero; actually moving that many tokens to the
/// owner is the host's concern, performed outside the core.
pub fn claim_rewards(machine: &mut Machine, caller: AccountId) -> (r: Result<u64, ErrorCode>)
    ensures
        (r == Err::<u64, ErrorCode>(ErrorCode::Unauthorized)) <==> caller != old(machine).owner,
        (r == Err::<u64, ErrorCode>(ErrorCode::NoRewardsAvailable)) <==> (caller == old(
            machine,
        ).owner && old(machine).rewards_earned == 0),
        r is Ok <==> (caller == old(machine).owner && old(machine).rewards_earned > 0),
        r is Err ==> *final(machine) == *old(machine),
        r matches Ok(amount) ==> ({
            &&& amount == old(machine).rewards_earned
            &&& amount > 0
            &&& *final(machine) == old(machine).with_rewards_claimed()
        }),
{
    if machine.owner != caller {
        return Err(ErrorCode::Unauthorized);
    }
    let rewards = machine.rewards_earned;
    if rewards == 0 {
        return Err(ErrorCode::NoRewardsAvailable);
    }
    machine.rewards_earned = 0;
    Ok(rewards)
}

} // verus!
