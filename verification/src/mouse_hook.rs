use vstd::prelude::*;

use crate::config::{default_feature_settings, FeatureSettings};
use crate::screen_edge::{at_left_edge, is_at_left_edge, Point, Rect};

verus! {

/// The message a hook posts to the command window; its `WPARAM` carries the
/// command (`WM_APP + 1`).
pub const COMMAND_MESSAGE: u32 = 0x8001;

/// The hook code under which a low-level mouse hook must act (`HC_ACTION`).
pub const HOOK_ACTION_CODE: i32 = 0;

/// `WM_MOUSEWHEEL`.
pub const MOUSE_WHEEL_MESSAGE: u32 = 0x020A;

/// `WM_MBUTTONDOWN`.
pub const MIDDLE_BUTTON_DOWN_MESSAGE: u32 = 0x0207;

/// `WM_MBUTTONUP`.
pub const MIDDLE_BUTTON_UP_MESSAGE: u32 = 0x0208;

/// The width of the left-edge strip before a hook is installed.
pub const DEFAULT_EDGE_WIDTH_PX: i32 = 4;

/// What a mouse gesture asks the desktop to do.
#[derive(Clone, Copy, Debug, PartialEq, Eq, Structural)]
pub enum MouseCommand {
    SwitchLeft,
    SwitchRight,
    ShowTaskView,
}

/// The value that carries a command in a posted message.
pub open spec fn command_value(command: MouseCommand) -> usize {
    match command {
        MouseCommand::SwitchLeft => 1,
        MouseCommand::SwitchRight => 2,
        MouseCommand::ShowTaskView => 3,
    }
}

/// The command a posted value carries, if any.
pub open spec fn command_from_value(value: usize) -> Option<MouseCommand> {
    if value == 1 {
        Some(MouseCommand::SwitchLeft)
    } else if value == 2 {
        Some(MouseCommand::SwitchRight)
    } else if value == 3 {
        Some(MouseCommand::ShowTaskView)
    } else {
        None
    }
}

impl MouseCommand {
    /// The command that a posted message value carries; `None` for any value
    /// that no command uses.
    pub fn from_message_value(value: usize) -> (r: Option<Self>)
        ensures
            r == command_from_value(value),
    {
        if value == 1 {
            Some(MouseCommand::SwitchLeft)
        } else if value == 2 {
            Some(MouseCommand::SwitchRight)
        } else if value == 3 {
            Some(MouseCommand::ShowTaskView)
        } else {
            None
        }
    }

    /// The value that carries this command in a posted message.
    pub fn message_value(self) -> (r: usize)
        ensures
            r == command_value(self),
    {
        match self {
            MouseCommand::SwitchLeft => 1,
            MouseCommand::SwitchRight => 2,
            MouseCommand::ShowTaskView => 3,
        }
    }
}

/// A posted command is read back as the same command, and only the value
/// that carries a command is read as that command.
pub proof fn lemma_command_value_round_trip(command: MouseCommand, value: usize)
    ensures
        command_from_value(command_value(command)) == Some(command),
        command_from_value(value) == Some(command) ==> command_value(command) == value,
{
}

/// The window that receives posted commands: a non-null handle.
#[derive(Clone, Copy, Debug)]
pub struct CommandTarget {
    raw: usize,
}

impl CommandTarget {
    #[verifier::type_invariant]
    spec fn non_null(self) -> bool {
        self.raw != 0
    }

    /// The handle value of the window.
    pub closed spec fn raw(self) -> usize {
        self.raw
    }

    /// A target for the window with this handle; `None` for the null handle.
    pub fn from_hwnd(raw: usize) -> (r: Option<Self>)
        ensures
            r is None <==> raw == 0,
            r matches Some(t) ==> t.raw() == raw,
    {
        if raw == 0 {
            None
        } else {
            Some(CommandTarget { raw })
        }
    }

    /// The handle value of the window; never null.
    pub fn as_hwnd(self) -> (r: usize)
        ensures
            r == self.raw(),
            r != 0,
    {
        proof {
            use_type_invariant(&self);
        }
        self.raw
    }
}

/// The handle value of an optional target.
pub open spec fn target_raw(target: Option<CommandTarget>) -> Option<usize> {
    match target {
        Some(t) => Some(t.raw()),
        None => None,
    }
}

/// The mouse events that the gestures react to.
#[derive(Clone, Copy, Debug, PartialEq, Eq, Structural)]
pub enum MouseEventKind {
    Wheel { delta: i16 },
    MiddleButtonDown,
    MiddleButtonUp,
}

/// A mouse event with the point where it happened.
#[derive(Clone, Copy, Debug, PartialEq, Eq, Structural)]
pub struct MouseEvent {
    pub kind: MouseEventKind,
    pub point: Point,
}

/// The signed value of a 16-bit word read in two's complement.
pub open spec fn signed_word(word: int) -> int {
    if word < 0x8000 {
        word
    } else {
        word - 0x10000
    }
}

/// The event that a low-level hook message describes, if it is one of those
/// the gestures react to; the wheel delta is the signed high word of the
/// mouse data.
pub open spec fn event_from_message(message: u32, mouse_data: u32, point: Point) -> Option<
    MouseEvent,
> {
    if message == MOUSE_WHEEL_MESSAGE {
        Some(
            MouseEvent {
                kind: MouseEventKind::Wheel {
                    delta: signed_word(mouse_data as int / 0x10000) as i16,
                },
                point,
            },
        )
    } else if message == MIDDLE_BUTTON_DOWN_MESSAGE {
        Some(MouseEvent { kind: MouseEventKind::MiddleButtonDown, point })
    } else if message == MIDDLE_BUTTON_UP_MESSAGE {
        Some(MouseEvent { kind: MouseEventKind::MiddleButtonUp, point })
    } else {
        None
    }
}

/// The upper 16 bits of a 32-bit value.
pub fn high_word(value: u32) -> (r: u16)
    ensures
        r == value / 0x10000,
{
    assert(((value >> 16u32) & 0xffffu32) == value / 0x10000) by (bit_vector);
    ((value >> 16u32) & 0xffffu32) as u16
}

fn word_as_signed(word: u16) -> (r: i16)
    ensures
        r == signed_word(word as int),
{
    assert(word < 0x8000u16 ==> word as i16 == word) by (bit_vector);
    assert(word >= 0x8000u16 ==> word as i16 == word - 0x10000) by (bit_vector);
    word as i16
}

impl MouseEvent {
    /// The event described by a low-level mouse hook message, the mouse data
    /// and the point of its hook structure; `None` for the messages that no
    /// gesture uses.
    pub fn from_win32(message: u32, mouse_data: u32, point: Point) -> (r: Option<Self>)
        ensures
            r == event_from_message(message, mouse_data, point),
    {
        let kind = if message == MOUSE_WHEEL_MESSAGE {
            let delta = word_as_signed(high_word(mouse_data));
            MouseEventKind::Wheel { delta }
        } else if message == MIDDLE_BUTTON_DOWN_MESSAGE {
            MouseEventKind::MiddleButtonDown
        } else if message == MIDDLE_BUTTON_UP_MESSAGE {
            MouseEventKind::MiddleButtonUp
        } else {
            return None;
        };
        Some(MouseEvent { kind, point })
    }
}

/// Whether the event happened where gestures trigger.
#[derive(Clone, Copy, Debug, PartialEq, Eq, Structural)]
pub struct TriggerContext {
    pub is_at_left_edge: bool,
}

/// What the hook does with an event.
#[derive(Clone, Copy, Debug, PartialEq, Eq, Structural)]
pub enum HookDecision {
    /// Hand the event on to the next hook.
    Pass,
    /// Swallow the event.
    Consume,
    /// Swallow the event and post the command.
    Command(MouseCommand),
}

impl HookDecision {
    /// Whether the event is kept from the rest of the system.
    pub fn is_consumed(self) -> (r: bool)
        ensures
            r == !(self is Pass),
    {
        match self {
            HookDecision::Pass => false,
            HookDecision::Consume => true,
            HookDecision::Command(_) => true,
        }
    }
}

/// The gesture in progress: whether a middle-button press at the edge was
/// turned into a command, so that its release is swallowed too.
#[derive(Clone, Copy, Debug, PartialEq, Eq, Structural)]
pub struct GestureState {
    pub middle_button_gesture_used: bool,
}

impl Default for GestureState {
    fn default() -> (r: Self)
        ensures
            r == idle_gestures(),
    {
        GestureState { middle_button_gesture_used: false }
    }
}

/// No gesture in progress.
pub open spec fn idle_gestures() -> GestureState {
    GestureState { middle_button_gesture_used: false }
}

/// The decision for a wheel turn at the edge: up switches left, down switches
/// right, no movement is swallowed.
pub open spec fn wheel_decision(delta: i16) -> HookDecision {
    if delta > 0 {
        HookDecision::Command(MouseCommand::SwitchLeft)
    } else if delta < 0 {
        HookDecision::Command(MouseCommand::SwitchRight)
    } else {
        HookDecision::Consume
    }
}

/// The step for an event at the edge.
pub open spec fn trigger_step(state: GestureState, event: MouseEventKind) -> (
    GestureState,
    HookDecision,
) {
    match event {
        MouseEventKind::Wheel { delta } => (state, wheel_decision(delta)),
        MouseEventKind::MiddleButtonDown => (
            GestureState { middle_button_gesture_used: true },
            HookDecision::Command(MouseCommand::ShowTaskView),
        ),
        MouseEventKind::MiddleButtonUp => (idle_gestures(), HookDecision::Consume),
    }
}

/// The step of the gesture machine: the release that ends a gesture is
/// swallowed wherever it happens; otherwise events away from the edge pass,
/// and events at the edge trigger.
pub open spec fn gesture_step(state: GestureState, event: MouseEventKind, context: TriggerContext) -> (
    GestureState,
    HookDecision,
) {
    if event == MouseEventKind::MiddleButtonUp && state.middle_button_gesture_used {
        (idle_gestures(), HookDecision::Consume)
    } else if !context.is_at_left_edge {
        (state, HookDecision::Pass)
    } else {
        trigger_step(state, event)
    }
}

impl GestureState {
    /// Reacts to one mouse event and says what the hook does with it.
    pub fn handle(&mut self, event: MouseEventKind, context: TriggerContext) -> (r: HookDecision)
        ensures
            (*final(self), r) == gesture_step(*old(self), event, context),
    {
        if event == MouseEventKind::MiddleButtonUp && self.middle_button_gesture_used {
            self.middle_button_gesture_used = false;
            return HookDecision::Consume;
        }
        if !context.is_at_left_edge {
            return HookDecision::Pass;
        }
        self.handle_trigger(event)
    }

    /// Reacts to an event at the edge.
    pub fn handle_trigger(&mut self, event: MouseEventKind) -> (r: HookDecision)
        ensures
            (*final(self), r) == trigger_step(*old(self), event),
    {
        match event {
            MouseEventKind::Wheel { delta } => {
                if delta > 0 {
                    HookDecision::Command(MouseCommand::SwitchLeft)
                } else if delta < 0 {
                    HookDecision::Command(MouseCommand::SwitchRight)
                } else {
                    HookDecision::Consume
                }
            },
            MouseEventKind::MiddleButtonDown => {
                self.middle_button_gesture_used = true;
                HookDecision::Command(MouseCommand::ShowTaskView)
            },
            MouseEventKind::MiddleButtonUp => {
                if self.middle_button_gesture_used {
                    self.middle_button_gesture_used = false;
                }
                HookDecision::Consume
            },
        }
    }
}

/// A middle-button press at the edge shows the task view, and the release
/// that follows is swallowed wherever it happens, ending the gesture.
pub proof fn lemma_release_after_gesture_is_consumed(
    state: GestureState,
    press_context: TriggerContext,
    release_context: TriggerContext,
)
    requires
        press_context.is_at_left_edge,
    ensures
        gesture_step(state, MouseEventKind::MiddleButtonDown, press_context).1
            == HookDecision::Command(MouseCommand::ShowTaskView),
        gesture_step(
            gesture_step(state, MouseEventKind::MiddleButtonDown, press_context).0,
            MouseEventKind::MiddleButtonUp,
            release_context,
        ) == (idle_gestures(), HookDecision::Consume),
{
}

/// Away from the edge and with no gesture in progress, every event passes
/// through and the state stays as it is.
pub proof fn lemma_outside_edge_passes_through(
    state: GestureState,
    event: MouseEventKind,
    context: TriggerContext,
)
    requires
        !context.is_at_left_edge,
        !state.middle_button_gesture_used,
    ensures
        gesture_step(state, event, context) == (state, HookDecision::Pass),
{
}

/// An event is swallowed only at the edge or when it is the release that ends
/// a gesture; a command is posted only at the edge.
pub proof fn lemma_consumed_only_at_edge_or_gesture_end(
    state: GestureState,
    event: MouseEventKind,
    context: TriggerContext,
)
    ensures
        !(gesture_step(state, event, context).1 is Pass) ==> context.is_at_left_edge || (event
            == MouseEventKind::MiddleButtonUp && state.middle_button_gesture_used),
        gesture_step(state, event, context).1 is Command ==> context.is_at_left_edge,
{
}

/// After a middle-button release no gesture is in progress.
pub proof fn lemma_release_ends_gesture(state: GestureState, context: TriggerContext)
    ensures
        gesture_step(state, MouseEventKind::MiddleButtonUp, context).0 == idle_gestures(),
{
}

/// A gesture is in progress only after a press at the edge that was not yet
/// released: any step that starts one is a middle-button press at the edge.
pub proof fn lemma_gesture_starts_only_with_press_at_edge(
    state: GestureState,
    event: MouseEventKind,
    context: TriggerContext,
)
    requires
        !state.middle_button_gesture_used,
        gesture_step(state, event, context).0.middle_button_gesture_used,
    ensures
        event == MouseEventKind::MiddleButtonDown,
        context.is_at_left_edge,
{
}

/// The abstract state of the hook runtime.
#[derive(Clone, Copy, Debug, PartialEq, Eq, Structural)]
pub struct RuntimeState {
    pub edge_width_px: i32,
    pub command_target: Option<usize>,
    pub settings: FeatureSettings,
    pub gestures: GestureState,
}

/// The runtime state before a hook is installed.
pub open spec fn initial_runtime() -> RuntimeState {
    RuntimeState {
        edge_width_px: DEFAULT_EDGE_WIDTH_PX,
        command_target: None,
        settings: default_feature_settings(),
        gestures: idle_gestures(),
    }
}

/// The context of an event: at the edge only where edge switching is on and
/// the point lies in the left-edge strip of its monitor.
pub open spec fn event_context(state: RuntimeState, event: MouseEvent, monitor: Option<Rect>) -> TriggerContext {
    TriggerContext {
        is_at_left_edge: state.settings.edge_wheel_switching_enabled && at_left_edge(
            monitor,
            event.point,
            state.edge_width_px,
        ),
    }
}

/// One event through the runtime: the new state and the decision.
pub open spec fn runtime_step(state: RuntimeState, event: MouseEvent, monitor: Option<Rect>) -> (
    RuntimeState,
    HookDecision,
) {
    let (gestures, decision) = gesture_step(
        state.gestures,
        event.kind,
        event_context(state, event, monitor),
    );
    (RuntimeState { gestures, ..state }, decision)
}

/// The state of the mouse hook that lives on the hook's thread: the strip
/// width, the window that receives commands, the settings and the gesture in
/// progress.
pub struct HookRuntime {
    edge_width_px: i32,
    command_target: Option<CommandTarget>,
    edge_wheel_switching_enabled: bool,
    right_button_gestures_enabled: bool,
    gestures: GestureState,
}

impl View for HookRuntime {
    type V = RuntimeState;

    closed spec fn view(&self) -> RuntimeState {
        RuntimeState {
            edge_width_px: self.edge_width_px,
            command_target: target_raw(self.command_target),
            settings: FeatureSettings {
                edge_wheel_switching_enabled: self.edge_wheel_switching_enabled,
                right_button_gestures_enabled: self.right_button_gestures_enabled,
            },
            gestures: self.gestures,
        }
    }
}

impl Default for HookRuntime {
    fn default() -> (r: Self)
        ensures
            r@ == initial_runtime(),
    {
        let settings = FeatureSettings::default();
        HookRuntime {
            edge_width_px: DEFAULT_EDGE_WIDTH_PX,
            command_target: None,
            edge_wheel_switching_enabled: settings.edge_wheel_switching_enabled,
            right_button_gestures_enabled: settings.right_button_gestures_enabled,
            gestures: GestureState::default(),
        }
    }
}

impl HookRuntime {
    /// Records the strip width and the command window of a newly installed
    /// hook and forgets any gesture in progress; the settings stay.
    pub fn install(&mut self, edge_width_px: i32, command_target: Option<CommandTarget>)
        ensures
            final(self)@ == (RuntimeState {
                edge_width_px,
                command_target: target_raw(command_target),
                gestures: idle_gestures(),
                ..old(self)@
            }),
    {
        self.edge_width_px = edge_width_px;
        self.command_target = command_target;
        self.gestures = GestureState::default();
    }

    /// Forgets the command window, as the hook is removed: no command is
    /// posted any more.
    pub fn detach_command_target(&mut self)
        ensures
            final(self)@ == (RuntimeState { command_target: None, ..old(self)@ }),
    {
        self.command_target = None;
    }

    /// Takes over new settings; nothing else changes.
    pub fn apply_feature_settings(&mut self, settings: FeatureSettings)
        ensures
            final(self)@ == (RuntimeState { settings, ..old(self)@ }),
    {
        self.edge_wheel_switching_enabled = settings.edge_wheel_switching_enabled;
        self.right_button_gestures_enabled = settings.right_button_gestures_enabled;
    }

    /// The settings in force.
    pub fn feature_settings(&self) -> (r: FeatureSettings)
        ensures
            r == self@.settings,
    {
        FeatureSettings {
            edge_wheel_switching_enabled: self.edge_wheel_switching_enabled,
            right_button_gestures_enabled: self.right_button_gestures_enabled,
        }
    }

    /// Whether wheel switching at the edge is on.
    pub fn is_edge_wheel_switching_enabled(&self) -> (r: bool)
        ensures
            r == self@.settings.edge_wheel_switching_enabled,
    {
        self.edge_wheel_switching_enabled
    }

    /// Reacts to a mouse event, given the bounds of the monitor nearest to the
    /// event's point (`None` where none could be determined); returns the
    /// decision and the window that is to receive a command.
    pub fn handle_event(&mut self, event: MouseEvent, monitor: Option<Rect>) -> (r: (
        HookDecision,
        Option<CommandTarget>,
    ))
        ensures
            (final(self)@, r.0) == runtime_step(old(self)@, event, monitor),
            target_raw(r.1) == old(self)@.command_target,
    {
        let context = TriggerContext {
            is_at_left_edge: self.edge_wheel_switching_enabled && is_at_left_edge(
                monitor,
                event.point,
                self.edge_width_px,
            ),
        };
        let decision = self.gestures.handle(event.kind, context);
        (decision, self.command_target)
    }
}

/// Whether wheel switching at the edge is on in this runtime.
pub fn is_edge_wheel_switching_enabled(runtime: &HookRuntime) -> (r: bool)
    ensures
        r == runtime@.settings.edge_wheel_switching_enabled,
{
    runtime.is_edge_wheel_switching_enabled()
}

/// The settings in force in this runtime.
pub fn feature_settings(runtime: &HookRuntime) -> (r: FeatureSettings)
    ensures
        r == runtime@.settings,
{
    runtime.feature_settings()
}

/// Makes this runtime use new settings.
pub fn apply_feature_settings(runtime: &mut HookRuntime, settings: FeatureSettings)
    ensures
        final(runtime)@ == (RuntimeState { settings, ..old(runtime)@ }),
{
    runtime.apply_feature_settings(settings);
}

/// Settings that were applied are read back unchanged, and applying them
/// touches nothing but the settings.
pub proof fn lemma_applied_settings_read_back(state: RuntimeState, settings: FeatureSettings)
    ensures
        (RuntimeState { settings, ..state }).settings == settings,
        (RuntimeState { settings, ..state }).gestures == state.gestures,
        (RuntimeState { settings, ..state }).command_target == state.command_target,
        (RuntimeState { settings, ..state }).edge_width_px == state.edge_width_px,
{
}

/// With wheel switching at the edge turned off, no event becomes a command,
/// and an event is swallowed only where it ends a gesture already begun.
pub proof fn lemma_disabled_switching_posts_nothing(
    state: RuntimeState,
    event: MouseEvent,
    monitor: Option<Rect>,
)
    requires
        !state.settings.edge_wheel_switching_enabled,
    ensures
        !(runtime_step(state, event, monitor).1 is Command),
        !(runtime_step(state, event, monitor).1 is Pass) ==> event.kind
            == MouseEventKind::MiddleButtonUp && state.gestures.middle_button_gesture_used,
{
}

/// Handling events changes only the gesture in progress: the strip width, the
/// command window and the settings stay.
pub proof fn lemma_events_keep_configuration(
    state: RuntimeState,
    event: MouseEvent,
    monitor: Option<Rect>,
)
    ensures
        runtime_step(state, event, monitor).0.edge_width_px == state.edge_width_px,
        runtime_step(state, event, monitor).0.command_target == state.command_target,
        runtime_step(state, event, monitor).0.settings == state.settings,
{
}


/// The right-button gestures switch plays no part in what the hook decides:
/// two runtimes that differ only in it decide every event alike.
pub proof fn lemma_right_button_switch_plays_no_part(
    state: RuntimeState,
    event: MouseEvent,
    monitor: Option<Rect>,
    right_button: bool,
)
    ensures
        runtime_step(
            RuntimeState {
                settings: FeatureSettings {
                    right_button_gestures_enabled: right_button,
                    ..state.settings
                },
                ..state
            },
            event,
            monitor,
        ).1 == runtime_step(state, event, monitor).1,
{
}

/// With edge switching on and no gesture in progress, an event at a point
/// within `edge_width_px` columns of the left edge of its monitor, between its
/// top and bottom, triggers: a wheel turn up switches left, down switches
/// right, no movement is swallowed, a middle press shows the task view and a
/// middle release is swallowed.
pub proof fn lemma_events_in_strip_trigger(
    state: RuntimeState,
    kind: MouseEventKind,
    point: Point,
    monitor: Rect,
)
    requires
        state.settings.edge_wheel_switching_enabled,
        !state.gestures.middle_button_gesture_used,
        state.edge_width_px > 0,
        monitor.left <= point.x,
        point.x < monitor.left + state.edge_width_px,
        monitor.left + state.edge_width_px <= 0x7fff_ffff,
        monitor.top <= point.y,
        point.y < monitor.bottom,
    ensures
        ({
            let d = runtime_step(state, MouseEvent { kind, point }, Some(monitor)).1;
            match kind {
                MouseEventKind::Wheel { delta } => {
                    &&& delta > 0 ==> d == HookDecision::Command(MouseCommand::SwitchLeft)
                    &&& delta < 0 ==> d == HookDecision::Command(MouseCommand::SwitchRight)
                    &&& delta == 0 ==> d == HookDecision::Consume
                },
                MouseEventKind::MiddleButtonDown => d == HookDecision::Command(
                    MouseCommand::ShowTaskView,
                ),
                MouseEventKind::MiddleButtonUp => d == HookDecision::Consume,
            }
        }),
{
}

/// With no gesture in progress, an event passes through where edge switching
/// is off, where no monitor is known, or where the point lies outside the
/// strip of the monitor: left of it, `edge_width_px` or more columns right of
/// its left edge, above its top or at or below its bottom.
pub proof fn lemma_events_outside_strip_pass(
    state: RuntimeState,
    event: MouseEvent,
    monitor: Option<Rect>,
)
    requires
        !state.gestures.middle_button_gesture_used,
        !state.settings.edge_wheel_switching_enabled || monitor is None || state.edge_width_px
            <= 0 || event.point.x < monitor->0.left || event.point.x >= monitor->0.left
            + state.edge_width_px || event.point.y < monitor->0.top || event.point.y
            >= monitor->0.bottom,
    ensures
        runtime_step(state, event, monitor) == (state, HookDecision::Pass),
{
}

/// Only the wheel message and the two middle-button messages describe an
/// event; a wheel event comes only from the wheel message, whose delta is the
/// signed upper half of the mouse data; every event keeps the message's point.
pub proof fn lemma_only_wheel_and_middle_messages_decode(message: u32, mouse_data: u32, point: Point)
    ensures
        event_from_message(message, mouse_data, point) is Some <==> (message == 0x020A || message
            == 0x0207 || message == 0x0208),
        event_from_message(message, mouse_data, point) matches Some(e) ==> e.point == point,
        event_from_message(message, mouse_data, point) matches Some(e) ==> (e.kind is Wheel
            <==> message == 0x020A),
        event_from_message(message, mouse_data, point) matches Some(e) ==> (e.kind
            == MouseEventKind::MiddleButtonDown <==> message == 0x0207),
        event_from_message(message, mouse_data, point) matches Some(e) ==> (e.kind
            == MouseEventKind::MiddleButtonUp <==> message == 0x0208),
        message == 0x020A ==> (event_from_message(message, mouse_data, point) matches Some(e)
            && e.kind matches MouseEventKind::Wheel { delta } && delta as int == (if mouse_data
            < 0x8000_0000 {
            mouse_data as int / 0x10000
        } else {
            mouse_data as int / 0x10000 - 0x10000
        })),
{
}


/// The values that carry commands in posted messages: 1 switches left, 2
/// switches right, 3 shows the task view, and no other value is a command.
pub proof fn lemma_command_values(value: usize)
    ensures
        command_value(MouseCommand::SwitchLeft) == 1,
        command_value(MouseCommand::SwitchRight) == 2,
        command_value(MouseCommand::ShowTaskView) == 3,
        command_from_value(value) is Some <==> 1 <= value <= 3,
{
}

/// Before a hook is installed the strip is four columns wide, no window
/// receives commands, every feature is on and no gesture is in progress.
pub proof fn lemma_initial_runtime()
    ensures
        initial_runtime().edge_width_px == 4,
        initial_runtime().command_target is None,
        initial_runtime().settings.edge_wheel_switching_enabled,
        initial_runtime().settings.right_button_gestures_enabled,
        !initial_runtime().gestures.middle_button_gesture_used,
{
}

} // verus!
