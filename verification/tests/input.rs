use pizzatopia::input::{InputManager, InputStatistics};

#[test]
fn input_statistics_axis() {
    let mut stats: InputStatistics = InputStatistics::default();
    assert_eq!(stats.set_axis_value(0.25f32.to_bits()), false);
    assert_eq!(stats.set_axis_value((-0.25f32).to_bits()), false);
    assert_eq!(stats.set_axis_value(0.3f32.to_bits()), true);
}

#[test]
fn input_manager() {
    let mut manager = InputManager::new();
    let test_action = String::from("test");
    manager.insert_action(test_action.clone());

    // Default
    let result = manager.action_status(test_action.clone());
    assert_eq!(result.is_down, false);

    // Action status
    manager.update_statistics(test_action.clone(), true);
    let result = manager.action_status(test_action.clone());
    assert_eq!(result.is_down, true);
    assert_eq!(f32::from_bits(result.axis), 0.0);

    manager.update_statistics(test_action.clone(), false);
    let result = manager.action_status(test_action.clone());
    assert_eq!(result.is_down, false);

    // Action single press
    manager.update_statistics(test_action.clone(), true);
    let result = manager.action_single_press(test_action.clone());
    assert_eq!(result.is_down, true);

    manager.update_statistics(test_action.clone(), true);
    let result = manager.action_single_press(test_action.clone());
    assert_eq!(result.is_down, false);

    // Cool down press
    manager.update_statistics(test_action.clone(), true);
    let result = manager.is_valid_cooldown_press(test_action.clone(), 1000);
    assert_eq!(result.is_down, false);
    let result = manager.is_valid_cooldown_press(test_action.clone(), 0);
    assert_eq!(result.is_down, true);

    // Repeat press
    let mut counter = 0;
    for _i in 0..10 {
        manager.update_statistics(test_action.clone(), true);
        if manager
            .is_valid_repeat_press(test_action.clone(), 0, 2)
            .is_down
        {
            counter += 1;
        }
    }
    assert_eq!(counter, 5);

    let result = manager.is_valid_repeat_press(test_action.clone(), 10000, 0);
    assert_eq!(result.is_down, false);
}

use pizzatopia::input::{Input, InputResult};

fn manager_with(names: &[&str]) -> InputManager {
    InputManager::with_actions(&names.iter().map(|s| s.to_string()).collect())
}

#[test]
fn status_follows_the_latest_update() {
    let mut m = manager_with(&["a", "b"]);
    assert_eq!(m.action_status(String::from("a")), InputResult::default());
    m.update_statistics(String::from("a"), true);
    assert!(m.action_status(String::from("a")).is_down);
    // The other action is left alone.
    assert_eq!(m.action_status(String::from("b")), InputResult::default());
    m.update_statistics(String::from("b"), true);
    m.update_statistics(String::from("a"), false);
    assert!(!m.action_status(String::from("a")).is_down);
    assert!(m.action_status(String::from("b")).is_down);
    assert_eq!(m.frame_counter, 3);
    // Unknown actions read as released.
    assert_eq!(m.action_status(String::from("c")), InputResult::default());
}

#[test]
fn just_released_exactly_on_the_release() {
    let mut m = manager_with(&["a"]);
    m.update_statistics(String::from("a"), true);
    assert!(!m.action_just_released(String::from("a")));
    m.update_statistics(String::from("a"), false);
    assert!(m.action_just_released(String::from("a")));
    m.update_statistics(String::from("a"), false);
    assert!(!m.action_just_released(String::from("a")));
    assert!(!m.action_just_released(String::from("b")));
}

#[test]
fn repeat_press_on_the_first_frame_and_then_on_the_period() {
    let mut m = manager_with(&["a"]);
    let a = String::from("a");
    m.update_statistics(a.clone(), true);
    // First frame of the press: positive whatever the delay.
    assert!(m.repeat_press_after(&a, 0, 10_000, 7).is_down);
    m.update_statistics(a.clone(), true);
    // Held, before the delay: nothing.
    assert!(!m.repeat_press_after(&a, 10, 100, 2).is_down);
    // After the delay, on frames numbered by the period.
    assert!(m.repeat_press_after(&a, 100, 100, 2).is_down);
    assert!(!m.repeat_press_after(&a, 100, 100, 3).is_down);
    // A zero period never repeats.
    assert!(!m.repeat_press_after(&a, 100, 100, 0).is_down);
    m.update_statistics(a.clone(), false);
    // Released: never positive.
    assert_eq!(m.repeat_press_after(&a, 100, 0, 1), InputResult::default());
}

#[test]
fn cooldown_press_after_the_cooldown() {
    let mut m = manager_with(&["a"]);
    let a = String::from("a");
    m.update_statistics(a.clone(), true);
    assert!(!m.cooldown_press_after(&a, 99, 100).is_down);
    assert!(m.cooldown_press_after(&a, 100, 100).is_down);
    m.update_statistics(a.clone(), false);
    assert!(!m.cooldown_press_after(&a, 1000, 100).is_down);
}

#[test]
fn axis_values_press_from_three_tenths() {
    let mut m = manager_with(&["h"]);
    let h = String::from("h");
    assert!(!m.set_axis_value(&h, 0.29f32.to_bits()));
    assert!(m.set_axis_value(&h, (-0.3f32).to_bits()));
    assert_eq!(f32::from_bits(m.action_status(h.clone()).axis), -0.3);
    assert!(!m.set_axis_value(&String::from("v"), 1.0f32.to_bits()));
    assert!(!m.set_axis_value(&h, f32::NAN.to_bits()));
}

#[test]
fn input_records_a_frame() {
    let mut input = Input::new(&vec![String::from("accept")], &vec![String::from("horizontal")]);
    assert!(input.record_frame(
        &vec![(String::from("accept"), Some(true))],
        &vec![(String::from("horizontal"), Some(0.9f32.to_bits()))],
    ));
    assert!(input.actions.action_status(String::from("accept")).is_down);
    let h = input.axes.action_status(String::from("horizontal"));
    assert!(h.is_down);
    assert_eq!(f32::from_bits(h.axis), 0.9);
    assert!(input.record_frame(
        &vec![(String::from("accept"), None)],
        &vec![(String::from("horizontal"), Some(0.1f32.to_bits()))],
    ));
    assert!(!input.actions.action_status(String::from("accept")).is_down);
    assert!(input.actions.action_just_released(String::from("accept")));
    assert!(!input.axes.action_status(String::from("horizontal")).is_down);
}

#[test]
fn a_frame_naming_an_unknown_input_is_refused() {
    let mut input = Input::new(&vec![String::from("accept")], &vec![String::from("horizontal")]);
    assert!(!input.record_frame(&vec![(String::from("jump"), Some(true))], &vec![]));
    let mut input = Input::new(&vec![String::from("accept")], &vec![String::from("horizontal")]);
    assert!(!input.record_frame(&vec![], &vec![(String::from("vertical"), None)]));
}

#[test]
fn never_pressed_action_is_not_just_released() {
    let mut m = manager_with(&["a"]);
    m.update_statistics(String::from("a"), false);
    assert!(!m.action_just_released(String::from("a")));
    m.update_statistics(String::from("a"), true);
    m.update_statistics(String::from("a"), false);
    assert!(m.action_just_released(String::from("a")));
}

#[test]
fn single_press_only_on_the_update_the_press_begins() {
    let mut m = manager_with(&["a"]);
    let a = String::from("a");
    assert!(!m.action_single_press(a.clone()).is_down);
    m.update_statistics(a.clone(), true);
    assert!(m.action_single_press(a.clone()).is_down);
    // Held for many updates, including numbers that are multiples of any period:
    // never positive again until released and pressed anew.
    for _ in 0..20 {
        m.update_statistics(a.clone(), true);
        assert!(!m.action_single_press(a.clone()).is_down);
    }
    m.update_statistics(a.clone(), false);
    assert!(!m.action_single_press(a.clone()).is_down);
    m.update_statistics(a.clone(), true);
    assert!(m.action_single_press(a.clone()).is_down);
    assert_eq!(m.action_single_press(String::from("b")), InputResult::default());
}

#[test]
fn counters_that_would_overflow_are_reported() {
    let mut m = manager_with(&["a"]);
    let a = String::from("a");
    assert!(m.can_update_statistics(&a, true));
    assert!(!m.can_update_statistics(&String::from("b"), true));
    m.frame_counter = u128::MAX;
    assert!(!m.can_update_statistics(&a, true));
}
