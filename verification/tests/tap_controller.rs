use macos_keyboard_remapper::errors::RemapError;
use macos_keyboard_remapper::layout::LayoutReading;
use macos_keyboard_remapper::modifiers::ModifierMask;
use macos_keyboard_remapper::remap::{PunctuationPolicy, RemapDirection};
use macos_keyboard_remapper::tap::{
    DisableReason, EventCategory, KeyPhase, TapController, TapEvent, TapState, disable_log_line,
    install_config,
};

const DVORAK_ID: &str = "com.apple.keylayout.DVORAK-QWERTYCMD";
const US_ID: &str = "com.apple.keylayout.US";

fn control_mask() -> ModifierMask {
    ModifierMask { command: false, control: true, function: false, shift: false }
}

fn empty_mask() -> ModifierMask {
    ModifierMask { command: false, control: false, function: false, shift: false }
}

fn reading_of(id: &str) -> Option<LayoutReading> {
    Some(LayoutReading::Identifier(id.as_bytes().to_vec()))
}

fn installed(direction: RemapDirection) -> TapController {
    let mut controller =
        TapController::new(direction, PunctuationPolicy::RedirectHyphenEquals);
    controller.install();
    controller
}

#[test]
fn install_requests_exactly_four_categories_at_the_head() {
    let config = install_config();
    assert_eq!(
        config.categories,
        vec![
            EventCategory::KeyDown,
            EventCategory::KeyUp,
            EventCategory::TapDisabledByTimeout,
            EventCategory::TapDisabledByUserInput,
        ]
    );
    assert!(config.head_insertion);
    assert!(config.allow_mutation);
}

#[test]
fn install_moves_the_state_machine_to_enabled() {
    let mut controller =
        TapController::new(RemapDirection::DvorakToQwerty, PunctuationPolicy::RedirectHyphenEquals);
    assert_eq!(controller.state(), TapState::Uninitialized);
    assert_eq!(controller.direction(), RemapDirection::DvorakToQwerty);
    assert_eq!(controller.punctuation(), PunctuationPolicy::RedirectHyphenEquals);
    controller.install();
    assert_eq!(controller.state(), TapState::Enabled);
}

#[test]
fn a_disable_notice_transitions_exactly_once() {
    let mut controller = installed(RemapDirection::DvorakToQwerty);
    controller.on_tap_disabled(DisableReason::Timeout);
    assert_eq!(controller.state(), TapState::Disabled(DisableReason::Timeout));
    // Delivered twice consecutively: the second notice changes nothing.
    controller.on_tap_disabled(DisableReason::Timeout);
    assert_eq!(controller.state(), TapState::Disabled(DisableReason::Timeout));
    controller.on_tap_disabled(DisableReason::UserInput);
    assert_eq!(controller.state(), TapState::Disabled(DisableReason::Timeout));
}

#[test]
fn explicit_reenable_recovers_and_is_idempotent() {
    let mut controller = installed(RemapDirection::DvorakToQwerty);
    controller.on_tap_disabled(DisableReason::UserInput);
    controller.enable();
    assert_eq!(controller.state(), TapState::Enabled);
    controller.enable();
    assert_eq!(controller.state(), TapState::Enabled);
}

#[test]
fn dvorak_to_qwerty_remaps_the_quote_position_under_control() {
    let mut controller = installed(RemapDirection::DvorakToQwerty);
    assert!(controller.wants_layout_query(control_mask()));
    let decision = controller.handle_event(
        &TapEvent::Key { phase: KeyPhase::Down, keycode: 39, mask: control_mask() },
        &reading_of(DVORAK_ID),
    );
    assert_eq!(decision, Some(12));
}

#[test]
fn qwerty_to_dvorak_remaps_the_q_position_without_modifiers() {
    let mut controller = installed(RemapDirection::QwertyToDvorak);
    assert!(controller.wants_layout_query(empty_mask()));
    let decision = controller.handle_event(
        &TapEvent::Key { phase: KeyPhase::Down, keycode: 12, mask: empty_mask() },
        &reading_of(US_ID),
    );
    assert_eq!(decision, Some(39));
}

#[test]
fn a_layout_mismatch_passes_the_event_through() {
    for direction in [RemapDirection::DvorakToQwerty, RemapDirection::QwertyToDvorak] {
        let mut controller = installed(direction);
        let decision = controller.handle_event(
            &TapEvent::Key { phase: KeyPhase::Down, keycode: 12, mask: control_mask() },
            &reading_of("com.apple.keylayout.French"),
        );
        assert_eq!(decision, None);
    }
}

#[test]
fn failed_layout_readings_pass_the_event_through() {
    for reading in [Some(LayoutReading::NullSource), Some(LayoutReading::Undecodable), None] {
        let mut controller = installed(RemapDirection::DvorakToQwerty);
        let decision = controller.handle_event(
            &TapEvent::Key { phase: KeyPhase::Down, keycode: 39, mask: control_mask() },
            &reading,
        );
        assert_eq!(decision, None);
    }
}

#[test]
fn a_gate_refusal_skips_the_layout_query_and_the_remap() {
    let controller = installed(RemapDirection::DvorakToQwerty);
    assert!(!controller.wants_layout_query(empty_mask()));
    // Even a matching reading maps nothing once the modifier gate refused.
    let decision = controller.decide_key_event(39, empty_mask(), &reading_of(DVORAK_ID));
    assert_eq!(decision, None);
}

#[test]
fn a_disabled_tap_passes_every_key_through() {
    let mut controller = installed(RemapDirection::DvorakToQwerty);
    controller.on_tap_disabled(DisableReason::Timeout);
    assert!(!controller.wants_layout_query(control_mask()));
    let decision = controller.decide_key_event(39, control_mask(), &reading_of(DVORAK_ID));
    assert_eq!(decision, None);
}

#[test]
fn key_releases_run_the_same_pipeline() {
    let mut controller = installed(RemapDirection::DvorakToQwerty);
    let decision = controller.handle_event(
        &TapEvent::Key { phase: KeyPhase::Up, keycode: 39, mask: control_mask() },
        &reading_of(DVORAK_ID),
    );
    assert_eq!(decision, Some(12));
}

#[test]
fn notices_and_foreign_events_map_nothing() {
    let mut controller = installed(RemapDirection::DvorakToQwerty);
    let notice = controller.handle_event(
        &TapEvent::DisabledNotice { reason: DisableReason::UserInput },
        &None,
    );
    assert_eq!(notice, None);
    assert_eq!(controller.state(), TapState::Disabled(DisableReason::UserInput));
    let other = controller.handle_event(&TapEvent::Other, &None);
    assert_eq!(other, None);
}

#[test]
fn only_a_disabled_state_stands_for_an_error() {
    assert_eq!(TapState::Uninitialized.error(), None);
    assert_eq!(TapState::Enabled.error(), None);
    assert_eq!(
        TapState::Disabled(DisableReason::Timeout).error(),
        Some(RemapError::TapDisabled)
    );
    assert_eq!(
        TapState::Disabled(DisableReason::UserInput).error(),
        Some(RemapError::TapDisabled)
    );
}

#[test]
fn the_disable_log_distinguishes_the_reasons() {
    assert_ne!(disable_log_line(DisableReason::Timeout), disable_log_line(DisableReason::UserInput));
    assert!(disable_log_line(DisableReason::Timeout).contains("timeout"));
    assert!(disable_log_line(DisableReason::UserInput).contains("user input"));
}
