use macos_keyboard_remapper::modifiers::{
    GatePolicy, ModifierMask, gate_allows, policy_for, should_attempt_remap,
};
use macos_keyboard_remapper::remap::RemapDirection;

fn mask(command: bool, control: bool, function: bool, shift: bool) -> ModifierMask {
    ModifierMask { command, control, function, shift }
}

#[test]
fn policies_answer_in_opposition() {
    let none_held = mask(false, false, false, false);
    assert!(!gate_allows(GatePolicy::OnlyWhenHeld, none_held));
    assert!(gate_allows(GatePolicy::OnlyWhenAbsent, none_held));

    for gating in [mask(false, true, false, false), mask(false, false, true, false)] {
        assert!(gate_allows(GatePolicy::OnlyWhenHeld, gating));
        assert!(!gate_allows(GatePolicy::OnlyWhenAbsent, gating));
    }
}

#[test]
fn command_alone_satisfies_neither_policy() {
    let command_only = mask(true, false, false, false);
    assert!(!gate_allows(GatePolicy::OnlyWhenHeld, command_only));
    assert!(!gate_allows(GatePolicy::OnlyWhenAbsent, command_only));
}

#[test]
fn shift_is_not_a_gating_modifier() {
    let shift_only = mask(false, false, false, true);
    assert!(!gate_allows(GatePolicy::OnlyWhenHeld, shift_only));
    assert!(gate_allows(GatePolicy::OnlyWhenAbsent, shift_only));
}

#[test]
fn each_direction_has_its_policy() {
    assert_eq!(policy_for(RemapDirection::DvorakToQwerty), GatePolicy::OnlyWhenHeld);
    assert_eq!(policy_for(RemapDirection::QwertyToDvorak), GatePolicy::OnlyWhenAbsent);
}

#[test]
fn should_attempt_remap_follows_the_direction_policy() {
    let control = mask(false, true, false, false);
    let none_held = mask(false, false, false, false);
    assert!(should_attempt_remap(control, RemapDirection::DvorakToQwerty));
    assert!(!should_attempt_remap(none_held, RemapDirection::DvorakToQwerty));
    assert!(should_attempt_remap(none_held, RemapDirection::QwertyToDvorak));
    assert!(!should_attempt_remap(control, RemapDirection::QwertyToDvorak));
}
