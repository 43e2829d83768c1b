use device_protocol::command_manager::{GenericCommandManager, MotorState};
use device_protocol::errors::ValidationError;

const STEPS: u32 = 20;

fn level(intensity: f64) -> u32 {
    (intensity * STEPS as f64).ceil() as u32
}

#[test]
fn new_manager_has_sent_nothing() {
    let manager = GenericCommandManager::new(3, STEPS);
    assert_eq!(manager.motor_count(), 3);
    assert_eq!(manager.step_count(), STEPS);
    for i in 0..3 {
        assert_eq!(manager.motor_state(i), Some(MotorState { vibration: None, rotation: None }));
    }
    assert_eq!(manager.motor_state(3), None);
}

#[test]
fn vibration_first_repeat_and_single_change() {
    let mut manager = GenericCommandManager::new(3, STEPS);
    let half = level(0.5);
    assert_eq!(half, 10);
    let first = manager.update_vibration(&vec![half, half, half]);
    assert_eq!(first, Ok(vec![Some(10), Some(10), Some(10)]));
    let second = manager.update_vibration(&vec![half, half, half]);
    assert_eq!(second, Ok(vec![None, None, None]));
    let third = manager.update_vibration(&vec![half, level(0.75), half]);
    assert_eq!(third, Ok(vec![None, Some(15), None]));
}

#[test]
fn vibration_of_wrong_length_is_refused_and_changes_nothing() {
    let mut manager = GenericCommandManager::new(3, STEPS);
    assert_eq!(manager.update_vibration(&vec![4, 5, 6]), Ok(vec![Some(4), Some(5), Some(6)]));
    assert_eq!(
        manager.update_vibration(&vec![9, 9]),
        Err(ValidationError::MotorCountMismatch { expected: 3, found: 2 })
    );
    assert_eq!(
        manager.update_vibration(&vec![9, 9, 9, 9]),
        Err(ValidationError::MotorCountMismatch { expected: 3, found: 4 })
    );
    assert_eq!(
        manager.update_vibration(&vec![]),
        Err(ValidationError::MotorCountMismatch { expected: 3, found: 0 })
    );
    assert_eq!(manager.motor_state(0).unwrap().vibration, Some(4));
    assert_eq!(manager.motor_state(1).unwrap().vibration, Some(5));
    assert_eq!(manager.motor_state(2).unwrap().vibration, Some(6));
    assert_eq!(manager.update_vibration(&vec![4, 5, 6]), Ok(vec![None, None, None]));
}

#[test]
fn vibration_level_is_held_to_the_step_count() {
    let mut manager = GenericCommandManager::new(2, STEPS);
    assert_eq!(manager.update_vibration(&vec![21, u32::MAX]), Ok(vec![Some(20), Some(20)]));
    assert_eq!(manager.update_vibration(&vec![20, 500]), Ok(vec![None, None]));
    assert_eq!(manager.update_vibration(&vec![0, 20]), Ok(vec![Some(0), None]));
}

#[test]
fn vibration_zero_is_a_value_like_any_other() {
    let mut manager = GenericCommandManager::new(1, STEPS);
    assert_eq!(manager.update_vibration(&vec![0]), Ok(vec![Some(0)]));
    assert_eq!(manager.update_vibration(&vec![0]), Ok(vec![None]));
}

#[test]
fn manager_without_motors_takes_the_empty_command() {
    let mut manager = GenericCommandManager::new(0, STEPS);
    assert_eq!(manager.update_vibration(&vec![]), Ok(vec![]));
    assert_eq!(manager.update_rotation(&vec![]), Ok(vec![]));
    assert_eq!(
        manager.update_vibration(&vec![1]),
        Err(ValidationError::MotorCountMismatch { expected: 0, found: 1 })
    );
}

#[test]
fn rotation_first_repeat_flip_and_speed_change() {
    let mut manager = GenericCommandManager::new(2, STEPS);
    assert_eq!(
        manager.update_rotation(&vec![(10, true), (5, false)]),
        Ok(vec![Some((10, true)), Some((5, false))])
    );
    assert_eq!(manager.update_rotation(&vec![(10, true), (5, false)]), Ok(vec![None, None]));
    assert_eq!(
        manager.update_rotation(&vec![(10, false), (5, false)]),
        Ok(vec![Some((10, false)), None])
    );
    assert_eq!(
        manager.update_rotation(&vec![(10, false), (6, false)]),
        Ok(vec![None, Some((6, false))])
    );
    assert_eq!(
        manager.update_rotation(&vec![(99, true), (6, false)]),
        Ok(vec![Some((20, true)), None])
    );
}

#[test]
fn rotation_of_wrong_length_is_refused_and_changes_nothing() {
    let mut manager = GenericCommandManager::new(1, STEPS);
    assert_eq!(manager.update_rotation(&vec![(3, true)]), Ok(vec![Some((3, true))]));
    assert_eq!(
        manager.update_rotation(&vec![(4, true), (4, true)]),
        Err(ValidationError::MotorCountMismatch { expected: 1, found: 2 })
    );
    assert_eq!(manager.motor_state(0).unwrap().rotation, Some((3, true)));
    assert_eq!(manager.update_rotation(&vec![(3, true)]), Ok(vec![None]));
}

#[test]
fn vibration_and_rotation_are_remembered_apart() {
    let mut manager = GenericCommandManager::new(1, STEPS);
    assert_eq!(manager.update_vibration(&vec![7]), Ok(vec![Some(7)]));
    assert_eq!(manager.update_rotation(&vec![(7, true)]), Ok(vec![Some((7, true))]));
    assert_eq!(
        manager.motor_state(0),
        Some(MotorState { vibration: Some(7), rotation: Some((7, true)) })
    );
    assert_eq!(manager.update_vibration(&vec![7]), Ok(vec![None]));
}

#[test]
fn reset_motor_makes_the_next_command_count() {
    let mut manager = GenericCommandManager::new(2, STEPS);
    assert_eq!(manager.update_vibration(&vec![7, 8]), Ok(vec![Some(7), Some(8)]));
    manager.reset_motor(1);
    manager.reset_motor(5);
    assert_eq!(manager.motor_state(0).unwrap().vibration, Some(7));
    assert_eq!(manager.motor_state(1), Some(MotorState { vibration: None, rotation: None }));
    assert_eq!(manager.update_vibration(&vec![7, 8]), Ok(vec![None, Some(8)]));
}
