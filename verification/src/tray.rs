use vstd::prelude::*;

use crate::config::FeatureSettings;
use crate::desktop_switch::{
    arrow_key, chord, show_task_view_keys, switch_desktop_keys, Direction, KeyStroke, VirtualKey,
};
use crate::mouse_hook::{
    command_from_value, HookRuntime, MouseCommand, RuntimeState, COMMAND_MESSAGE,
};
use crate::utf16::{encode_utf16, utf16_encode};

verus! {

/// The menu id of the edge wheel switching item.
pub const MENU_EDGE_WHEEL_SWITCHING_ID: usize = 98;

/// The menu id of the start-up item.
pub const MENU_STARTUP_ID: usize = 99;

/// The menu id of the exit item.
pub const MENU_EXIT_ID: usize = 100;

/// The message the tray icon sends to its window (`WM_USER + 1`).
pub const TRAY_ICON_MESSAGE: u32 = 0x0401;

/// `WM_CONTEXTMENU`.
pub const CONTEXT_MENU_MESSAGE: u32 = 0x007B;

/// `WM_RBUTTONUP`.
pub const RIGHT_BUTTON_UP_MESSAGE: u32 = 0x0205;

/// `WM_DESTROY`.
pub const DESTROY_MESSAGE: u32 = 0x0002;

/// A choice in the tray's context menu.
#[derive(Clone, Copy, Debug, PartialEq, Eq, Structural)]
pub enum MenuCommand {
    ToggleEdgeWheelSwitching,
    ToggleStartup,
    Exit,
}

/// The menu id of a command.
pub open spec fn menu_id(command: MenuCommand) -> usize {
    match command {
        MenuCommand::ToggleEdgeWheelSwitching => MENU_EDGE_WHEEL_SWITCHING_ID,
        MenuCommand::ToggleStartup => MENU_STARTUP_ID,
        MenuCommand::Exit => MENU_EXIT_ID,
    }
}

/// The command a menu id selects, if any.
pub open spec fn menu_command_of(id: usize) -> Option<MenuCommand> {
    if id == MENU_EDGE_WHEEL_SWITCHING_ID {
        Some(MenuCommand::ToggleEdgeWheelSwitching)
    } else if id == MENU_STARTUP_ID {
        Some(MenuCommand::ToggleStartup)
    } else if id == MENU_EXIT_ID {
        Some(MenuCommand::Exit)
    } else {
        None
    }
}

impl MenuCommand {
    /// The command that the menu item with this id stands for; `None` for
    /// any other id, such as the 0 of a dismissed menu.
    pub fn from_id(id: usize) -> (r: Option<Self>)
        ensures
            r == menu_command_of(id),
    {
        if id == MENU_EDGE_WHEEL_SWITCHING_ID {
            Some(MenuCommand::ToggleEdgeWheelSwitching)
        } else if id == MENU_STARTUP_ID {
            Some(MenuCommand::ToggleStartup)
        } else if id == MENU_EXIT_ID {
            Some(MenuCommand::Exit)
        } else {
            None
        }
    }

    /// The menu id of this command.
    pub fn id(self) -> (r: usize)
        ensures
            r == menu_id(self),
    {
        match self {
            MenuCommand::ToggleEdgeWheelSwitching => MENU_EDGE_WHEEL_SWITCHING_ID,
            MenuCommand::ToggleStartup => MENU_STARTUP_ID,
            MenuCommand::Exit => MENU_EXIT_ID,
        }
    }
}

/// An entry of the context menu.
#[derive(Clone, Copy, Debug, PartialEq, Eq, Structural)]
pub enum MenuEntry {
    /// A text item that selects `command`, shown with a check mark when
    /// `checked`.
    Item { command: MenuCommand, checked: bool },
    Separator,
}

/// The context menu: edge wheel switching and start-up, each checked when
/// on, a separator, and exit.
pub open spec fn context_menu_entries(switching_enabled: bool, startup_enabled: bool) -> Seq<
    MenuEntry,
> {
    seq![
        MenuEntry::Item { command: MenuCommand::ToggleEdgeWheelSwitching, checked: switching_enabled },
        MenuEntry::Item { command: MenuCommand::ToggleStartup, checked: startup_enabled },
        MenuEntry::Separator,
        MenuEntry::Item { command: MenuCommand::Exit, checked: false },
    ]
}

/// The entries of the context menu for the current state of the two
/// switches.
pub fn context_menu(switching_enabled: bool, startup_enabled: bool) -> (r: Vec<MenuEntry>)
    ensures
        r@ == context_menu_entries(switching_enabled, startup_enabled),
{
    let mut entries: Vec<MenuEntry> = Vec::new();
    entries.push(
        MenuEntry::Item { command: MenuCommand::ToggleEdgeWheelSwitching, checked: switching_enabled },
    );
    entries.push(MenuEntry::Item { command: MenuCommand::ToggleStartup, checked: startup_enabled });
    entries.push(MenuEntry::Separator);
    entries.push(MenuEntry::Item { command: MenuCommand::Exit, checked: false });
    assert(entries@ =~= context_menu_entries(switching_enabled, startup_enabled));
    entries
}

/// The command an entry selects, if it is an item.
pub open spec fn entry_command(entry: MenuEntry) -> Option<MenuCommand> {
    match entry {
        MenuEntry::Item { command, .. } => Some(command),
        MenuEntry::Separator => None,
    }
}

/// Selecting an item of the context menu gives back the command of that
/// item, and distinct items carry distinct ids.
pub proof fn lemma_menu_selection_round_trip(
    switching_enabled: bool,
    startup_enabled: bool,
    i: int,
    j: int,
)
    requires
        0 <= i < 4,
        0 <= j < 4,
    ensures
        ({
            let entries = context_menu_entries(switching_enabled, startup_enabled);
            &&& entry_command(entries[i]) matches Some(c) ==> menu_command_of(menu_id(c)) == Some(c)
            &&& (i != j && entry_command(entries[i]) is Some && entry_command(entries[j]) is Some)
                ==> menu_id(entry_command(entries[i])->0) != menu_id(entry_command(entries[j])->0)
        }),
{
}

/// The low 16 bits of a message parameter.
pub open spec fn low_word_of(value: isize) -> u32 {
    (value % 0x10000) as u32
}

/// The low 16 bits of a message parameter.
pub fn low_word(value: isize) -> (r: u32)
    ensures
        r == low_word_of(value),
{
    let truncated: u32 = #[verifier::truncate] (value as u32);
    assert((#[verifier::truncate] (value as u32)) & 0xffffu32 == (value % 0x10000) as u32)
        by (bit_vector);
    truncated & 0xffff
}

/// What the tray window does with a message.
#[derive(Clone, Copy, Debug, PartialEq, Eq, Structural)]
pub enum WindowAction {
    /// Carry out the mouse command that `WPARAM` carries.
    RunMouseCommand,
    /// Show the context menu.
    ShowContextMenu,
    /// Leave the message loop.
    Quit,
    /// Leave the message to the default window procedure.
    Default,
}

/// The action for a message: posted mouse commands are carried out, a
/// context-menu request or right click on the icon opens the menu, the
/// window's destruction ends the loop, and anything else is left to the
/// default procedure.
pub open spec fn window_action_of(message: u32, l_param: isize) -> WindowAction {
    if message == COMMAND_MESSAGE {
        WindowAction::RunMouseCommand
    } else if message == TRAY_ICON_MESSAGE && (low_word_of(l_param) == CONTEXT_MENU_MESSAGE
        || low_word_of(l_param) == RIGHT_BUTTON_UP_MESSAGE) {
        WindowAction::ShowContextMenu
    } else if message == DESTROY_MESSAGE {
        WindowAction::Quit
    } else {
        WindowAction::Default
    }
}

/// Decides what the tray window does with a message and its `LPARAM`.
pub fn window_action(message: u32, l_param: isize) -> (r: WindowAction)
    ensures
        r == window_action_of(message, l_param),
{
    if message == COMMAND_MESSAGE {
        WindowAction::RunMouseCommand
    } else if message == TRAY_ICON_MESSAGE && (low_word(l_param) == CONTEXT_MENU_MESSAGE
        || low_word(l_param) == RIGHT_BUTTON_UP_MESSAGE) {
        WindowAction::ShowContextMenu
    } else if message == DESTROY_MESSAGE {
        WindowAction::Quit
    } else {
        WindowAction::Default
    }
}

/// What the message loop does after fetching a message.
#[derive(Clone, Copy, Debug, PartialEq, Eq, Structural)]
pub enum LoopStep {
    /// Fetching failed: end with the thread's error.
    Fail,
    /// The quit message arrived: end successfully.
    Quit,
    /// Translate and dispatch the message, then fetch the next.
    Dispatch,
}

/// Decides the message loop's next step from what fetching a message
/// returned: -1 is a failure, 0 the quit message.
pub fn message_loop_step(result: i32) -> (r: LoopStep)
    ensures
        r == (if result == -1 {
            LoopStep::Fail
        } else if result == 0 {
            LoopStep::Quit
        } else {
            LoopStep::Dispatch
        }),
{
    if result == -1 {
        LoopStep::Fail
    } else if result == 0 {
        LoopStep::Quit
    } else {
        LoopStep::Dispatch
    }
}

/// The keystrokes that carry out a mouse command.
pub open spec fn command_keys(command: MouseCommand) -> Seq<KeyStroke> {
    match command {
        MouseCommand::SwitchLeft => chord(
            seq![VirtualKey::Control, VirtualKey::LeftWindows, arrow_key(Direction::Left)],
        ),
        MouseCommand::SwitchRight => chord(
            seq![VirtualKey::Control, VirtualKey::LeftWindows, arrow_key(Direction::Right)],
        ),
        MouseCommand::ShowTaskView => chord(seq![VirtualKey::LeftWindows, VirtualKey::Tab]),
    }
}

/// The keystrokes that carry out the mouse command a posted `WPARAM`
/// carries; `None` where it carries none.
pub fn handle_mouse_command(w_param: usize) -> (r: Option<Vec<KeyStroke>>)
    ensures
        match command_from_value(w_param) {
            None => r is None,
            Some(command) => r matches Some(keys) && keys@ == command_keys(command),
        },
{
    let command = match MouseCommand::from_message_value(w_param) {
        Some(command) => command,
        None => return None,
    };
    let keys = match command {
        MouseCommand::SwitchLeft => switch_desktop_keys(Direction::Left),
        MouseCommand::SwitchRight => switch_desktop_keys(Direction::Right),
        MouseCommand::ShowTaskView => show_task_view_keys(),
    };
    Some(keys)
}

/// The settings with edge wheel switching flipped.
pub open spec fn with_switching_toggled(settings: FeatureSettings) -> FeatureSettings {
    FeatureSettings {
        edge_wheel_switching_enabled: !settings.edge_wheel_switching_enabled,
        ..settings
    }
}

/// The settings to save when the user toggles edge wheel switching: those in
/// force with that one switch flipped.
pub fn toggle_edge_wheel_switching(runtime: &HookRuntime) -> (r: FeatureSettings)
    ensures
        r == with_switching_toggled(runtime@.settings),
{
    let mut settings = runtime.feature_settings();
    settings.edge_wheel_switching_enabled = !settings.edge_wheel_switching_enabled;
    settings
}

/// Takes over settings once they are saved: only settings that reached the
/// configuration file come into force; after a failed save nothing changes.
pub fn save_feature_settings(runtime: &mut HookRuntime, settings: FeatureSettings, saved: bool)
    ensures
        final(runtime)@ == (if saved {
            RuntimeState { settings, ..old(runtime)@ }
        } else {
            old(runtime)@
        }),
{
    if saved {
        runtime.apply_feature_settings(settings);
    }
}

/// Toggling twice gives back the settings, and toggling changes nothing but
/// edge wheel switching.
pub proof fn lemma_toggle_twice_restores(settings: FeatureSettings)
    ensures
        with_switching_toggled(with_switching_toggled(settings)) == settings,
        with_switching_toggled(settings).right_button_gestures_enabled
            == settings.right_button_gestures_enabled,
        with_switching_toggled(settings).edge_wheel_switching_enabled
            != settings.edge_wheel_switching_enabled,
{
}

/// Toggling edge wheel switching from the menu and saving the result flips
/// the switch the runtime reports and leaves everything else as it was; when
/// the save fails, the runtime keeps its settings.
pub proof fn lemma_saved_toggle_flips_switch(state: RuntimeState)
    ensures
        ({
            let toggled = with_switching_toggled(state.settings);
            let after = RuntimeState { settings: toggled, ..state };
            &&& after.settings.edge_wheel_switching_enabled
                == !state.settings.edge_wheel_switching_enabled
            &&& after.settings.right_button_gestures_enabled
                == state.settings.right_button_gestures_enabled
            &&& after.gestures == state.gestures
            &&& after.command_target == state.command_target
            &&& after.edge_width_px == state.edge_width_px
        }),
{
}

/// The tooltip slots after the tooltip is written into them: as many leading
/// slots as both have are overwritten with the tooltip's UTF-16 units, the
/// rest keep their value.
pub open spec fn tip_written(slots: Seq<u16>, tip: Seq<char>) -> Seq<u16> {
    let units = utf16_encode(tip);
    Seq::new(slots.len(), |i: int| if i < units.len() { units[i] } else { slots[i] })
}

/// Writes a tooltip into the slots of a notification icon, truncating it to
/// the slots there are.
pub fn set_tip(slots: &mut Vec<u16>, tip: &str)
    ensures
        final(slots)@ == tip_written(old(slots)@, tip@),
{
    let units = encode_utf16(tip);
    let n = slots.len();
    let mut i: usize = 0;
    while i < n && i < units.len()
        invariant
            n == slots@.len(),
            units@ == utf16_encode(tip@),
            i <= n,
            forall|k: int| 0 <= k < i ==> #[trigger] slots@[k] == units@[k],
            forall|k: int| i <= k < n ==> #[trigger] slots@[k] == old(slots)@[k],
            i <= units@.len(),
        decreases n - i,
    {
        slots.set(i, units[i]);
        i = i + 1;
    }
    assert(slots@ =~= tip_written(old(slots)@, tip@));
}


/// A tray-icon message opens the menu exactly when the low 16 bits of its
/// `LPARAM` are a context-menu request or a right-button release; posted
/// mouse commands are carried out, the window's destruction ends the loop,
/// and every other message, a tray-icon message with other low bits among
/// them, goes to the default procedure.
pub proof fn lemma_window_action_dispatch(message: u32, l_param: isize)
    ensures
        low_word_of(l_param) as int == l_param as int % 0x10000,
        window_action_of(message, l_param) == WindowAction::RunMouseCommand <==> message == 0x8001,
        window_action_of(message, l_param) == WindowAction::ShowContextMenu <==> (message == 0x0401
            && (l_param as int % 0x10000 == 0x007B || l_param as int % 0x10000 == 0x0205)),
        window_action_of(message, l_param) == WindowAction::Quit <==> message == 0x0002,
        window_action_of(message, l_param) == WindowAction::Default <==> (message != 0x8001
            && message != 0x0002 && !(message == 0x0401 && (l_param as int % 0x10000 == 0x007B
            || l_param as int % 0x10000 == 0x0205))),
{
}

/// Each toggle item of the context menu carries its own switch as its check
/// mark, whatever the other switch is; the menu always has the four entries
/// in the same order, exit last and never checked.
pub proof fn lemma_menu_checks_follow_their_switches(
    switching_enabled: bool,
    startup_enabled: bool,
    other: bool,
)
    ensures
        ({
            let entries = context_menu_entries(switching_enabled, startup_enabled);
            &&& entries.len() == 4
            &&& entries[0] matches MenuEntry::Item { command, checked } && command
                == MenuCommand::ToggleEdgeWheelSwitching && checked == switching_enabled
            &&& entries[1] matches MenuEntry::Item { command, checked } && command
                == MenuCommand::ToggleStartup && checked == startup_enabled
            &&& entries[2] == MenuEntry::Separator
            &&& entries[3] matches MenuEntry::Item { command, checked } && command
                == MenuCommand::Exit && !checked
            &&& entries[0] == context_menu_entries(switching_enabled, other)[0]
            &&& entries[1] == context_menu_entries(other, startup_enabled)[1]
        }),
{
}


/// The ids of the menu items are 98, 99 and 100, for edge wheel switching,
/// start-up and exit; no other id selects a command.
pub proof fn lemma_menu_ids(id: usize)
    ensures
        menu_id(MenuCommand::ToggleEdgeWheelSwitching) == 98,
        menu_id(MenuCommand::ToggleStartup) == 99,
        menu_id(MenuCommand::Exit) == 100,
        menu_command_of(id) is Some <==> 98 <= id <= 100,
        menu_command_of(id) matches Some(c) ==> menu_id(c) == id,
{
}

/// A switch command presses Ctrl, Win and the arrow towards its side, in that
/// order, and releases them in reverse; the task view is Win then Tab,
/// released in reverse.
pub proof fn lemma_command_keystrokes()
    ensures
        command_keys(MouseCommand::SwitchLeft) == seq![
            KeyStroke { key: VirtualKey::Control, key_up: false },
            KeyStroke { key: VirtualKey::LeftWindows, key_up: false },
            KeyStroke { key: VirtualKey::LeftArrow, key_up: false },
            KeyStroke { key: VirtualKey::LeftArrow, key_up: true },
            KeyStroke { key: VirtualKey::LeftWindows, key_up: true },
            KeyStroke { key: VirtualKey::Control, key_up: true },
        ],
        command_keys(MouseCommand::SwitchRight) == seq![
            KeyStroke { key: VirtualKey::Control, key_up: false },
            KeyStroke { key: VirtualKey::LeftWindows, key_up: false },
            KeyStroke { key: VirtualKey::RightArrow, key_up: false },
            KeyStroke { key: VirtualKey::RightArrow, key_up: true },
            KeyStroke { key: VirtualKey::LeftWindows, key_up: true },
            KeyStroke { key: VirtualKey::Control, key_up: true },
        ],
        command_keys(MouseCommand::ShowTaskView) == seq![
            KeyStroke { key: VirtualKey::LeftWindows, key_up: false },
            KeyStroke { key: VirtualKey::Tab, key_up: false },
            KeyStroke { key: VirtualKey::Tab, key_up: true },
            KeyStroke { key: VirtualKey::LeftWindows, key_up: true },
        ],
{
    let l = seq![VirtualKey::Control, VirtualKey::LeftWindows, VirtualKey::LeftArrow];
    let r = seq![VirtualKey::Control, VirtualKey::LeftWindows, VirtualKey::RightArrow];
    let t = seq![VirtualKey::LeftWindows, VirtualKey::Tab];
    assert(l.reverse() =~= seq![VirtualKey::LeftArrow, VirtualKey::LeftWindows, VirtualKey::Control]);
    assert(r.reverse() =~= seq![VirtualKey::RightArrow, VirtualKey::LeftWindows, VirtualKey::Control]);
    assert(t.reverse() =~= seq![VirtualKey::Tab, VirtualKey::LeftWindows]);
    assert(command_keys(MouseCommand::SwitchLeft) =~= seq![
            KeyStroke { key: VirtualKey::Control, key_up: false },
            KeyStroke { key: VirtualKey::LeftWindows, key_up: false },
            KeyStroke { key: VirtualKey::LeftArrow, key_up: false },
            KeyStroke { key: VirtualKey::LeftArrow, key_up: true },
            KeyStroke { key: VirtualKey::LeftWindows, key_up: true },
            KeyStroke { key: VirtualKey::Control, key_up: true },
        ]);
    assert(command_keys(MouseCommand::SwitchRight) =~= seq![
            KeyStroke { key: VirtualKey::Control, key_up: false },
            KeyStroke { key: VirtualKey::LeftWindows, key_up: false },
            KeyStroke { key: VirtualKey::RightArrow, key_up: false },
            KeyStroke { key: VirtualKey::RightArrow, key_up: true },
            KeyStroke { key: VirtualKey::LeftWindows, key_up: true },
            KeyStroke { key: VirtualKey::Control, key_up: true },
        ]);
    assert(command_keys(MouseCommand::ShowTaskView) =~= seq![
            KeyStroke { key: VirtualKey::LeftWindows, key_up: false },
            KeyStroke { key: VirtualKey::Tab, key_up: false },
            KeyStroke { key: VirtualKey::Tab, key_up: true },
            KeyStroke { key: VirtualKey::LeftWindows, key_up: true },
        ]);
}

} // verus!
