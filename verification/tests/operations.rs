use agrox_contract::errors::ErrorCode;
use agrox_contract::ops::claim_rewards;
use agrox_contract::ops::initialize;
use agrox_contract::ops::register_machine;
use agrox_contract::ops::start_machine;
use agrox_contract::ops::stop_machine;
use agrox_contract::ops::upload_data;
use agrox_contract::ops::use_data;
use agrox_contract::records::Machine;
use agrox_contract::registry::SystemState;

const AUTHORITY: u64 = 1;
const OWNER: u64 = 7;
const STRANGER: u64 = 8;
const MACHINE_KEY: u64 = 100;

fn fresh_machine(id: &str) -> (SystemState, Machine) {
    let mut state = initialize(AUTHORITY);
    let machine = register_machine(&mut state, id.to_string(), MACHINE_KEY, OWNER).unwrap();
    (state, machine)
}

fn fresh_active_machine(id: &str) -> (SystemState, Machine) {
    let (state, mut machine) = fresh_machine(id);
    start_machine(&mut machine, OWNER).unwrap();
    (state, machine)
}

#[test]
fn initialize_zeroes_counters() {
    let state = initialize(AUTHORITY);
    assert_eq!(state.authority, AUTHORITY);
    assert_eq!(state.machine_count, 0);
    assert_eq!(state.total_data_uploads, 0);
    assert_eq!(state.data_request_count, 0);
    assert_eq!(state.machines.get(&"any".to_string()), None);
}

#[test]
fn register_creates_inactive_zeroed_record() {
    let mut state = initialize(AUTHORITY);
    let machine =
        register_machine(&mut state, "sensor-1".to_string(), MACHINE_KEY, OWNER).unwrap();
    assert_eq!(machine.owner, OWNER);
    assert_eq!(machine.machine_id, "sensor-1");
    assert!(!machine.is_active);
    assert_eq!(machine.data_count, 0);
    assert_eq!(machine.image_count, 0);
    assert_eq!(machine.rewards_earned, 0);
    assert_eq!(machine.last_data_timestamp, 0);
    assert_eq!(machine.last_image_timestamp, 0);
    assert_eq!(machine.data_used_count, 0);
    assert_eq!(state.machine_count, 1);
    assert_eq!(state.machines.get(&"sensor-1".to_string()), Some(MACHINE_KEY));
}

#[test]
fn register_duplicate_id_fails_for_any_caller() {
    let mut state = initialize(AUTHORITY);
    register_machine(&mut state, "dup".to_string(), MACHINE_KEY, OWNER).unwrap();
    let again_same_caller = register_machine(&mut state, "dup".to_string(), 101, OWNER);
    assert_eq!(again_same_caller.unwrap_err(), ErrorCode::MachineIdAlreadyExists);
    let again_other_caller = register_machine(&mut state, "dup".to_string(), 102, STRANGER);
    assert_eq!(again_other_caller.unwrap_err(), ErrorCode::MachineIdAlreadyExists);
    assert_eq!(state.machine_count, 1);
    assert_eq!(state.machines.get(&"dup".to_string()), Some(MACHINE_KEY));
}

#[test]
fn register_ids_are_case_sensitive() {
    let mut state = initialize(AUTHORITY);
    register_machine(&mut state, "Sensor".to_string(), 100, OWNER).unwrap();
    register_machine(&mut state, "sensor".to_string(), 101, OWNER).unwrap();
    assert_eq!(state.machine_count, 2);
    assert_eq!(state.machines.get(&"Sensor".to_string()), Some(100));
    assert_eq!(state.machines.get(&"sensor".to_string()), Some(101));
}

#[test]
fn machine_count_counts_successful_registrations() {
    let mut state = initialize(AUTHORITY);
    assert!(register_machine(&mut state, "a".to_string(), 100, OWNER).is_ok());
    assert!(register_machine(&mut state, "a".to_string(), 101, STRANGER).is_err());
    assert!(register_machine(&mut state, "b".to_string(), 102, STRANGER).is_ok());
    assert!(register_machine(&mut state, "c".repeat(33), 103, OWNER).is_err());
    assert!(register_machine(&mut state, "".to_string(), 104, OWNER).is_ok());
    assert_eq!(state.machine_count, 3);
}

#[test]
fn register_id_at_bound_succeeds() {
    let mut state = initialize(AUTHORITY);
    let id: String = "x".repeat(32);
    assert!(register_machine(&mut state, id.clone(), MACHINE_KEY, OWNER).is_ok());
    assert_eq!(state.machines.get(&id), Some(MACHINE_KEY));
}

#[test]
fn register_id_over_bound_fails() {
    let mut state = initialize(AUTHORITY);
    let id: String = "x".repeat(33);
    let r = register_machine(&mut state, id, MACHINE_KEY, OWNER);
    assert_eq!(r.unwrap_err(), ErrorCode::MachineIdTooLong);
    assert_eq!(state.machine_count, 0);
}

#[test]
fn start_and_stop_by_owner_toggle_the_flag() {
    let (_state, mut machine) = fresh_machine("m");
    assert!(!machine.is_active);
    start_machine(&mut machine, OWNER).unwrap();
    assert!(machine.is_active);
    start_machine(&mut machine, OWNER).unwrap();
    assert!(machine.is_active);
    stop_machine(&mut machine, OWNER).unwrap();
    assert!(!machine.is_active);
    stop_machine(&mut machine, OWNER).unwrap();
    assert!(!machine.is_active);
}

#[test]
fn start_by_non_owner_fails_and_changes_nothing() {
    let (_state, mut machine) = fresh_machine("m");
    let r = start_machine(&mut machine, STRANGER);
    assert_eq!(r.unwrap_err(), ErrorCode::Unauthorized);
    assert!(!machine.is_active);
}

#[test]
fn stop_by_non_owner_fails_and_changes_nothing() {
    let (_state, mut machine) = fresh_active_machine("m");
    let r = stop_machine(&mut machine, STRANGER);
    assert_eq!(r.unwrap_err(), ErrorCode::Unauthorized);
    assert!(machine.is_active);
}

#[test]
fn upload_on_inactive_machine_fails_without_state_change() {
    let (mut state, mut machine) = fresh_machine("m");
    let r = upload_data(
        &mut state,
        &mut machine,
        MACHINE_KEY,
        50,
        20.5f64.to_bits(),
        55.0f64.to_bits(),
        None,
    );
    assert_eq!(r.unwrap_err(), ErrorCode::MachineNotActive);
    assert_eq!(machine.data_count, 0);
    assert_eq!(machine.rewards_earned, 0);
    assert_eq!(machine.last_data_timestamp, 0);
    assert_eq!(state.total_data_uploads, 0);
}

#[test]
fn upload_without_image_accrues_base_reward() {
    let (mut state, mut machine) = fresh_active_machine("m");
    let data = upload_data(
        &mut state,
        &mut machine,
        MACHINE_KEY,
        50,
        20.5f64.to_bits(),
        55.0f64.to_bits(),
        None,
    )
    .unwrap();
    assert_eq!(machine.rewards_earned, 1);
    assert_eq!(machine.data_count, 1);
    assert_eq!(machine.image_count, 0);
    assert_eq!(machine.last_data_timestamp, 50);
    assert_eq!(machine.last_image_timestamp, 0);
    assert_eq!(state.total_data_uploads, 1);
    assert_eq!(data.machine, MACHINE_KEY);
    assert_eq!(data.timestamp, 50);
    assert_eq!(f64::from_bits(data.temperature_bits), 20.5);
    assert_eq!(f64::from_bits(data.humidity_bits), 55.0);
    assert_eq!(data.image_url, None);
    assert_eq!(data.used_count, 0);
}

#[test]
fn upload_with_image_accrues_base_and_bonus_reward() {
    let (mut state, mut machine) = fresh_active_machine("m");
    let data = upload_data(
        &mut state,
        &mut machine,
        MACHINE_KEY,
        60,
        21.0f64.to_bits(),
        54.0f64.to_bits(),
        Some("http://img".to_string()),
    )
    .unwrap();
    assert_eq!(machine.rewards_earned, 11);
    assert_eq!(machine.data_count, 1);
    assert_eq!(machine.image_count, 1);
    assert_eq!(machine.last_data_timestamp, 60);
    assert_eq!(machine.last_image_timestamp, 60);
    assert_eq!(state.total_data_uploads, 1);
    assert_eq!(data.image_url, Some("http://img".to_string()));
}

#[test]
fn upload_url_at_bound_succeeds() {
    let (mut state, mut machine) = fresh_active_machine("m");
    let url: String = "u".repeat(100);
    let r = upload_data(&mut state, &mut machine, MACHINE_KEY, 60, 0, 0, Some(url.clone()));
    assert_eq!(r.unwrap().image_url, Some(url));
    assert_eq!(machine.rewards_earned, 11);
}

#[test]
fn upload_url_over_bound_fails_without_state_change() {
    let (mut state, mut machine) = fresh_active_machine("m");
    let url: String = "u".repeat(101);
    let r = upload_data(&mut state, &mut machine, MACHINE_KEY, 60, 0, 0, Some(url));
    assert_eq!(r.unwrap_err(), ErrorCode::ImageUrlTooLong);
    assert_eq!(machine.data_count, 0);
    assert_eq!(machine.image_count, 0);
    assert_eq!(machine.rewards_earned, 0);
    assert_eq!(state.total_data_uploads, 0);
}

#[test]
fn upload_url_bound_counts_bytes_not_chars() {
    let (mut state, mut machine) = fresh_active_machine("m");
    // 51 two-byte characters: 51 chars but 102 UTF-8 bytes.
    let url: String = "\u{e9}".repeat(51);
    assert_eq!(url.chars().count(), 51);
    assert_eq!(url.len(), 102);
    let r = upload_data(&mut state, &mut machine, MACHINE_KEY, 60, 0, 0, Some(url));
    assert_eq!(r.unwrap_err(), ErrorCode::ImageUrlTooLong);
}

#[test]
fn use_data_increments_counters_and_rewards() {
    let (mut state, mut machine) = fresh_active_machine("m");
    let mut data =
        upload_data(&mut state, &mut machine, MACHINE_KEY, 50, 0, 0, None).unwrap();
    use_data(&mut state, &mut machine, &mut data, MACHINE_KEY, STRANGER);
    assert_eq!(data.used_count, 1);
    assert_eq!(machine.data_used_count, 1);
    assert_eq!(machine.rewards_earned, 1 + 2);
    assert_eq!(state.data_request_count, 1);
    use_data(&mut state, &mut machine, &mut data, MACHINE_KEY, OWNER);
    assert_eq!(data.used_count, 2);
    assert_eq!(machine.data_used_count, 2);
    assert_eq!(machine.rewards_earned, 1 + 2 + 2);
    assert_eq!(state.data_request_count, 2);
    assert_eq!(state.total_data_uploads, 1);
}

#[test]
fn claim_with_zero_balance_fails_without_state_change() {
    let (_state, mut machine) = fresh_machine("m");
    let r = claim_rewards(&mut machine, OWNER);
    assert_eq!(r.unwrap_err(), ErrorCode::NoRewardsAvailable);
    assert_eq!(machine.rewards_earned, 0);
    assert!(!machine.is_active);
}

#[test]
fn claim_by_non_owner_fails_without_state_change() {
    let (mut state, mut machine) = fresh_active_machine("m");
    upload_data(&mut state, &mut machine, MACHINE_KEY, 50, 0, 0, None).unwrap();
    let r = claim_rewards(&mut machine, STRANGER);
    assert_eq!(r.unwrap_err(), ErrorCode::Unauthorized);
    assert_eq!(machine.rewards_earned, 1);
}

#[test]
fn claim_returns_whole_balance_and_zeroes_it() {
    let (mut state, mut machine) = fresh_active_machine("m");
    upload_data(&mut state, &mut machine, MACHINE_KEY, 50, 0, 0, None).unwrap();
    upload_data(
        &mut state,
        &mut machine,
        MACHINE_KEY,
        51,
        0,
        0,
        Some("http://img".to_string()),
    )
    .unwrap();
    let r = claim_rewards(&mut machine, OWNER);
    assert_eq!(r.unwrap(), 12);
    assert_eq!(machine.rewards_earned, 0);
    let again = claim_rewards(&mut machine, OWNER);
    assert_eq!(again.unwrap_err(), ErrorCode::NoRewardsAvailable);
}
