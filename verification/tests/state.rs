use bevy_actions::magnitude::{NEGATIVE_ZERO_BITS, ONE_BITS, POSITIVE_ZERO_BITS};
use bevy_actions::{Actions, Magnitude};

#[test]
fn new_state_has_no_active_action() {
    let actions = Actions::default();
    assert!(actions.is_empty());
    assert!(!actions.action(0));
    assert!(!actions.action(u64::MAX));
    assert_eq!(actions.value(0), None);
}

#[test]
fn activate_makes_the_action_active() {
    let mut actions = Actions::default();
    actions.activate(7, None);
    assert!(actions.action(7));
    assert!(!actions.action(8));
    assert_eq!(actions.value(7), None);
    assert!(!actions.is_empty());
}

#[test]
fn activate_with_magnitude_stores_the_magnitude() {
    let mut actions = Actions::default();
    actions.activate(7, Some(Magnitude::from_bits(2.5f32.to_bits())));
    assert!(actions.action(7));
    assert_eq!(actions.value(7), Some(Magnitude::from_bits(0x4020_0000)));
    assert_eq!(actions.value(8), None);
}

#[test]
fn activate_replaces_the_earlier_entry() {
    let mut actions = Actions::default();
    actions.activate(7, Some(Magnitude::from_bits(2.5f32.to_bits())));
    actions.activate(7, None);
    assert!(actions.action(7));
    assert_eq!(actions.value(7), None);
    actions.activate(7, Some(Magnitude::one()));
    assert_eq!(actions.value(7), Some(Magnitude::from_bits(ONE_BITS)));
}

#[test]
fn deactivate_removes_only_the_named_action() {
    let mut actions = Actions::default();
    actions.activate(1, None);
    actions.activate(2, Some(Magnitude::one()));
    actions.deactivate(1);
    assert!(!actions.action(1));
    assert!(actions.action(2));
    assert_eq!(actions.value(2), Some(Magnitude::one()));
    actions.deactivate(2);
    assert!(actions.is_empty());
}

#[test]
fn deactivate_of_an_inactive_action_changes_nothing() {
    let mut actions = Actions::default();
    actions.activate(1, None);
    actions.deactivate(5);
    assert!(actions.action(1));
    assert!(!actions.action(5));
}

#[test]
fn set_writes_each_kind_of_entry() {
    let mut actions = Actions::default();
    actions.set(3, Some(None));
    assert!(actions.action(3));
    assert_eq!(actions.value(3), None);
    actions.set(3, Some(Some(Magnitude::one())));
    assert_eq!(actions.value(3), Some(Magnitude::one()));
    actions.set(3, None);
    assert!(!actions.action(3));
}

#[test]
fn one_is_the_bit_pattern_of_the_number_one() {
    assert_eq!(ONE_BITS, 1.0f32.to_bits());
    assert_eq!(Magnitude::one().to_bits(), 0x3f80_0000);
    assert_eq!(f32::from_bits(Magnitude::one().to_bits()), 1.0);
    assert!(!Magnitude::one().is_zero());
}

#[test]
fn both_signed_zeros_are_zero() {
    assert_eq!(POSITIVE_ZERO_BITS, 0.0f32.to_bits());
    assert_eq!(NEGATIVE_ZERO_BITS, (-0.0f32).to_bits());
    assert!(Magnitude::from_bits(0.0f32.to_bits()).is_zero());
    assert!(Magnitude::from_bits((-0.0f32).to_bits()).is_zero());
}

#[test]
fn is_zero_agrees_with_comparison_to_zero() {
    let samples = [
        0.0f32,
        -0.0,
        1.0,
        -1.0,
        5.0,
        f32::MIN_POSITIVE,
        f32::EPSILON,
        f32::MAX,
        f32::MIN,
        f32::INFINITY,
        f32::NEG_INFINITY,
        f32::NAN,
        f32::from_bits(1),
        f32::from_bits(0x8000_0001),
    ];
    for value in samples {
        assert_eq!(Magnitude::from_bits(value.to_bits()).is_zero(), value == 0.0);
    }
}

#[test]
fn magnitude_keeps_its_bits() {
    assert_eq!(Magnitude::from_bits(0xdead_beef).to_bits(), 0xdead_beef);
    assert_eq!(Magnitude::from_bits(0).bits, 0);
}
