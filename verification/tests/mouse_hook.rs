use desktop_switcher::config::FeatureSettings;
use desktop_switcher::mouse_hook::{
    apply_feature_settings, feature_settings, high_word, is_edge_wheel_switching_enabled,
    CommandTarget, GestureState, HookDecision, HookRuntime, MouseCommand, MouseEvent,
    MouseEventKind, TriggerContext, MIDDLE_BUTTON_DOWN_MESSAGE, MIDDLE_BUTTON_UP_MESSAGE,
    MOUSE_WHEEL_MESSAGE,
};
use desktop_switcher::screen_edge::{Point, Rect};

const EDGE_CONTEXT: TriggerContext = TriggerContext { is_at_left_edge: true };

const OUTSIDE_CONTEXT: TriggerContext = TriggerContext { is_at_left_edge: false };

const MONITOR: Rect = Rect { left: 0, top: 0, right: 1920, bottom: 1080 };

#[test]
fn edge_wheel_maps_delta_to_desktop_commands() {
    let mut state = GestureState::default();

    assert_eq!(
        state.handle(MouseEventKind::Wheel { delta: 120 }, EDGE_CONTEXT),
        HookDecision::Command(MouseCommand::SwitchLeft)
    );
    assert_eq!(
        state.handle(MouseEventKind::Wheel { delta: -120 }, EDGE_CONTEXT),
        HookDecision::Command(MouseCommand::SwitchRight)
    );
}

#[test]
fn middle_button_up_is_consumed_after_handled_middle_button_down() {
    let mut state = GestureState::default();

    assert_eq!(
        state.handle(MouseEventKind::MiddleButtonDown, EDGE_CONTEXT),
        HookDecision::Command(MouseCommand::ShowTaskView)
    );
    assert_eq!(
        state.handle(MouseEventKind::MiddleButtonUp, OUTSIDE_CONTEXT),
        HookDecision::Consume
    );
}

#[test]
fn outside_trigger_area_passes_mouse_events_through() {
    let mut state = GestureState::default();

    assert_eq!(
        state.handle(MouseEventKind::Wheel { delta: 120 }, OUTSIDE_CONTEXT),
        HookDecision::Pass
    );
    assert_eq!(
        state.handle(MouseEventKind::MiddleButtonDown, OUTSIDE_CONTEXT),
        HookDecision::Pass
    );
}

#[test]
fn zero_wheel_delta_at_edge_is_consumed() {
    let mut state = GestureState::default();
    assert_eq!(state.handle(MouseEventKind::Wheel { delta: 0 }, EDGE_CONTEXT), HookDecision::Consume);
    assert_eq!(state, GestureState::default());
}

#[test]
fn release_without_gesture_outside_edge_passes() {
    let mut state = GestureState::default();
    assert_eq!(state.handle(MouseEventKind::MiddleButtonUp, OUTSIDE_CONTEXT), HookDecision::Pass);
    assert_eq!(state.handle(MouseEventKind::MiddleButtonUp, EDGE_CONTEXT), HookDecision::Consume);
}

#[test]
fn gesture_release_is_consumed_only_once() {
    let mut state = GestureState::default();
    state.handle(MouseEventKind::MiddleButtonDown, EDGE_CONTEXT);
    assert!(state.middle_button_gesture_used);
    assert_eq!(state.handle(MouseEventKind::MiddleButtonUp, OUTSIDE_CONTEXT), HookDecision::Consume);
    assert!(!state.middle_button_gesture_used);
    assert_eq!(state.handle(MouseEventKind::MiddleButtonUp, OUTSIDE_CONTEXT), HookDecision::Pass);
}

#[test]
fn decisions_other_than_pass_are_consumed() {
    assert!(!HookDecision::Pass.is_consumed());
    assert!(HookDecision::Consume.is_consumed());
    assert!(HookDecision::Command(MouseCommand::ShowTaskView).is_consumed());
}

#[test]
fn command_values_round_trip() {
    for command in [MouseCommand::SwitchLeft, MouseCommand::SwitchRight, MouseCommand::ShowTaskView] {
        assert_eq!(MouseCommand::from_message_value(command.message_value()), Some(command));
    }
    assert_eq!(MouseCommand::SwitchLeft.message_value(), 1);
    assert_eq!(MouseCommand::SwitchRight.message_value(), 2);
    assert_eq!(MouseCommand::ShowTaskView.message_value(), 3);
    assert_eq!(MouseCommand::from_message_value(0), None);
    assert_eq!(MouseCommand::from_message_value(4), None);
}

#[test]
fn high_word_takes_upper_bits() {
    assert_eq!(high_word(0x0078_0000), 0x0078);
    assert_eq!(high_word(0xFF88_1234), 0xFF88);
    assert_eq!(high_word(0x0000_FFFF), 0);
}

#[test]
fn wheel_message_reads_signed_delta() {
    let point = Point { x: 3, y: 7 };
    assert_eq!(
        MouseEvent::from_win32(MOUSE_WHEEL_MESSAGE, 0x0078_0000, point),
        Some(MouseEvent { kind: MouseEventKind::Wheel { delta: 120 }, point })
    );
    assert_eq!(
        MouseEvent::from_win32(MOUSE_WHEEL_MESSAGE, 0xFF88_0000, point),
        Some(MouseEvent { kind: MouseEventKind::Wheel { delta: -120 }, point })
    );
    assert_eq!(
        MouseEvent::from_win32(MIDDLE_BUTTON_DOWN_MESSAGE, 0, point),
        Some(MouseEvent { kind: MouseEventKind::MiddleButtonDown, point })
    );
    assert_eq!(
        MouseEvent::from_win32(MIDDLE_BUTTON_UP_MESSAGE, 0, point),
        Some(MouseEvent { kind: MouseEventKind::MiddleButtonUp, point })
    );
    assert_eq!(MouseEvent::from_win32(0x0200, 0, point), None);
}

#[test]
fn null_window_is_no_command_target() {
    assert!(CommandTarget::from_hwnd(0).is_none());
    assert_eq!(CommandTarget::from_hwnd(0x1234).map(|t| t.as_hwnd()), Some(0x1234));
}

#[test]
fn runtime_reads_back_applied_settings() {
    let mut runtime = HookRuntime::default();
    assert_eq!(feature_settings(&runtime), FeatureSettings::default());
    let settings = FeatureSettings {
        edge_wheel_switching_enabled: false,
        right_button_gestures_enabled: false,
    };
    apply_feature_settings(&mut runtime, settings);
    assert_eq!(feature_settings(&runtime), settings);
    assert!(!is_edge_wheel_switching_enabled(&runtime));
}

#[test]
fn runtime_switches_desktops_at_the_edge() {
    let mut runtime = HookRuntime::default();
    runtime.install(4, CommandTarget::from_hwnd(77));
    let event = MouseEvent { kind: MouseEventKind::Wheel { delta: 120 }, point: Point { x: 2, y: 500 } };
    let (decision, target) = runtime.handle_event(event, Some(MONITOR));
    assert_eq!(decision, HookDecision::Command(MouseCommand::SwitchLeft));
    assert_eq!(target.map(|t| t.as_hwnd()), Some(77));

    let away = MouseEvent { kind: MouseEventKind::Wheel { delta: 120 }, point: Point { x: 4, y: 500 } };
    assert_eq!(runtime.handle_event(away, Some(MONITOR)).0, HookDecision::Pass);
    assert_eq!(runtime.handle_event(event, None).0, HookDecision::Pass);
}

#[test]
fn runtime_with_switching_disabled_passes_edge_events() {
    let mut runtime = HookRuntime::default();
    runtime.apply_feature_settings(FeatureSettings {
        edge_wheel_switching_enabled: false,
        right_button_gestures_enabled: true,
    });
    let event = MouseEvent { kind: MouseEventKind::MiddleButtonDown, point: Point { x: 0, y: 0 } };
    assert_eq!(runtime.handle_event(event, Some(MONITOR)).0, HookDecision::Pass);
}

#[test]
fn install_forgets_gesture_and_detach_forgets_target() {
    let mut runtime = HookRuntime::default();
    runtime.install(4, CommandTarget::from_hwnd(5));
    let down = MouseEvent { kind: MouseEventKind::MiddleButtonDown, point: Point { x: 1, y: 1 } };
    assert_eq!(
        runtime.handle_event(down, Some(MONITOR)).0,
        HookDecision::Command(MouseCommand::ShowTaskView)
    );
    runtime.install(4, CommandTarget::from_hwnd(5));
    let up = MouseEvent { kind: MouseEventKind::MiddleButtonUp, point: Point { x: 900, y: 900 } };
    assert_eq!(runtime.handle_event(up, Some(MONITOR)).0, HookDecision::Pass);
    runtime.detach_command_target();
    assert!(runtime.handle_event(up, Some(MONITOR)).1.is_none());
}
