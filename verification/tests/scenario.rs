use agrox_contract::ops::claim_rewards;
use agrox_contract::ops::initialize;
use agrox_contract::ops::register_machine;
use agrox_contract::ops::start_machine;
use agrox_contract::ops::upload_data;
use agrox_contract::rewards::DATA_UPLOAD_REWARD;
use agrox_contract::rewards::DATA_USE_REWARD;
use agrox_contract::rewards::IMAGE_BONUS_REWARD;
use agrox_contract::rewards::upload_reward;

#[test]
fn sensor_lifecycle_scenario() {
    let authority: u64 = 1;
    let owner: u64 = 7;
    let machine_key: u64 = 100;

    let mut state = initialize(authority);
    let mut machine =
        register_machine(&mut state, "sensor-1".to_string(), machine_key, owner).unwrap();
    start_machine(&mut machine, owner).unwrap();

    upload_data(
        &mut state,
        &mut machine,
        machine_key,
        1000,
        20.5f64.to_bits(),
        55.0f64.to_bits(),
        None,
    )
    .unwrap();
    assert_eq!(machine.rewards_earned, 1);
    assert_eq!(machine.data_count, 1);
    assert_eq!(machine.image_count, 0);

    upload_data(
        &mut state,
        &mut machine,
        machine_key,
        1001,
        21.0f64.to_bits(),
        54.0f64.to_bits(),
        Some("http://img".to_string()),
    )
    .unwrap();
    assert_eq!(machine.rewards_earned, 12);
    assert_eq!(machine.data_count, 2);
    assert_eq!(machine.image_count, 1);

    let claimed = claim_rewards(&mut machine, owner).unwrap();
    assert_eq!(claimed, 12);
    assert_eq!(machine.rewards_earned, 0);
}

#[test]
fn reward_policy_constants() {
    assert_eq!(DATA_UPLOAD_REWARD, 1);
    assert_eq!(IMAGE_BONUS_REWARD, 10);
    assert_eq!(DATA_USE_REWARD, 2);
    assert_eq!(upload_reward(false), 1);
    assert_eq!(upload_reward(true), 11);
}
