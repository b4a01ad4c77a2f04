use desktop_switcher::config::FeatureSettings;
use desktop_switcher::desktop_switch::{show_task_view_keys, switch_desktop_keys, Direction};
use desktop_switcher::mouse_hook::{HookRuntime, MouseCommand, COMMAND_MESSAGE};
use desktop_switcher::tray::{
    context_menu, handle_mouse_command, low_word, message_loop_step, save_feature_settings,
    set_tip, toggle_edge_wheel_switching, window_action, LoopStep, MenuCommand, MenuEntry,
    WindowAction, CONTEXT_MENU_MESSAGE, DESTROY_MESSAGE, RIGHT_BUTTON_UP_MESSAGE,
    TRAY_ICON_MESSAGE,
};

#[test]
fn menu_ids_select_commands() {
    assert_eq!(MenuCommand::from_id(98), Some(MenuCommand::ToggleEdgeWheelSwitching));
    assert_eq!(MenuCommand::from_id(99), Some(MenuCommand::ToggleStartup));
    assert_eq!(MenuCommand::from_id(100), Some(MenuCommand::Exit));
    assert_eq!(MenuCommand::from_id(0), None);
    assert_eq!(MenuCommand::from_id(101), None);
    for command in [MenuCommand::ToggleEdgeWheelSwitching, MenuCommand::ToggleStartup, MenuCommand::Exit] {
        assert_eq!(MenuCommand::from_id(command.id()), Some(command));
    }
}

#[test]
fn context_menu_shows_switch_states() {
    assert_eq!(
        context_menu(true, false),
        vec![
            MenuEntry::Item { command: MenuCommand::ToggleEdgeWheelSwitching, checked: true },
            MenuEntry::Item { command: MenuCommand::ToggleStartup, checked: false },
            MenuEntry::Separator,
            MenuEntry::Item { command: MenuCommand::Exit, checked: false },
        ]
    );
}

#[test]
fn low_word_keeps_sixteen_bits() {
    assert_eq!(low_word(0x7B), 0x7B);
    assert_eq!(low_word(0x0003_0205), 0x0205);
    assert_eq!(low_word(-1), 0xFFFF);
}

#[test]
fn window_messages_map_to_actions() {
    assert_eq!(window_action(COMMAND_MESSAGE, 0), WindowAction::RunMouseCommand);
    assert_eq!(
        window_action(TRAY_ICON_MESSAGE, CONTEXT_MENU_MESSAGE as isize),
        WindowAction::ShowContextMenu
    );
    assert_eq!(
        window_action(TRAY_ICON_MESSAGE, 0x0001_0000 + RIGHT_BUTTON_UP_MESSAGE as isize),
        WindowAction::ShowContextMenu
    );
    assert_eq!(window_action(TRAY_ICON_MESSAGE, 0x0200), WindowAction::Default);
    assert_eq!(window_action(DESTROY_MESSAGE, 0), WindowAction::Quit);
    assert_eq!(window_action(0x000F, 0), WindowAction::Default);
}

#[test]
fn message_loop_steps() {
    assert_eq!(message_loop_step(-1), LoopStep::Fail);
    assert_eq!(message_loop_step(0), LoopStep::Quit);
    assert_eq!(message_loop_step(1), LoopStep::Dispatch);
}

#[test]
fn posted_commands_become_keystrokes() {
    assert_eq!(
        handle_mouse_command(MouseCommand::SwitchLeft.message_value()),
        Some(switch_desktop_keys(Direction::Left))
    );
    assert_eq!(
        handle_mouse_command(MouseCommand::SwitchRight.message_value()),
        Some(switch_desktop_keys(Direction::Right))
    );
    assert_eq!(
        handle_mouse_command(MouseCommand::ShowTaskView.message_value()),
        Some(show_task_view_keys())
    );
    assert_eq!(handle_mouse_command(9), None);
}

#[test]
fn toggling_flips_only_edge_switching() {
    let runtime = HookRuntime::default();
    let toggled = toggle_edge_wheel_switching(&runtime);
    assert_eq!(
        toggled,
        FeatureSettings { edge_wheel_switching_enabled: false, right_button_gestures_enabled: true }
    );
}

#[test]
fn settings_take_effect_only_once_saved() {
    let mut runtime = HookRuntime::default();
    let toggled = toggle_edge_wheel_switching(&runtime);
    save_feature_settings(&mut runtime, toggled, false);
    assert_eq!(runtime.feature_settings(), FeatureSettings::default());
    save_feature_settings(&mut runtime, toggled, true);
    assert_eq!(runtime.feature_settings(), toggled);
    let back = toggle_edge_wheel_switching(&runtime);
    assert_eq!(back, FeatureSettings::default());
}

#[test]
fn tooltip_is_written_and_truncated() {
    let mut slots = vec![0u16; 4];
    set_tip(&mut slots, "ab");
    assert_eq!(slots, vec![0x61, 0x62, 0, 0]);
    let mut small = vec![7u16; 3];
    set_tip(&mut small, "desktop");
    assert_eq!(small, vec![0x64, 0x65, 0x73]);
}
