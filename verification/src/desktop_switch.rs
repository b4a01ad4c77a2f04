use vstd::prelude::*;

verus! {

/// Which neighbouring virtual desktop to switch to.
#[derive(Clone, Copy, Debug, PartialEq, Eq, Structural)]
pub enum Direction {
    Left,
    Right,
}

/// The keys that the desktop shortcuts use.
#[derive(Clone, Copy, Debug, PartialEq, Eq, Structural)]
pub enum VirtualKey {
    Control,
    LeftWindows,
    LeftArrow,
    RightArrow,
    Tab,
}

/// The virtual-key code of a key.
pub open spec fn key_code(key: VirtualKey) -> u16 {
    match key {
        VirtualKey::Control => 0x11,
        VirtualKey::LeftWindows => 0x5B,
        VirtualKey::LeftArrow => 0x25,
        VirtualKey::RightArrow => 0x27,
        VirtualKey::Tab => 0x09,
    }
}

impl VirtualKey {
    /// The virtual-key code (`VK_CONTROL`, `VK_LWIN`, `VK_LEFT`, `VK_RIGHT`,
    /// `VK_TAB`).
    pub fn code(self) -> (r: u16)
        ensures
            r == key_code(self),
    {
        match self {
            VirtualKey::Control => 0x11,
            VirtualKey::LeftWindows => 0x5B,
            VirtualKey::LeftArrow => 0x25,
            VirtualKey::RightArrow => 0x27,
            VirtualKey::Tab => 0x09,
        }
    }
}

/// One synthesized keyboard event: a key pressed or released.
#[derive(Clone, Copy, Debug, PartialEq, Eq, Structural)]
pub struct KeyStroke {
    pub key: VirtualKey,
    pub key_up: bool,
}

/// The strokes of a shortcut: the keys pressed in order, then released in
/// the reverse order.
pub open spec fn chord(keys: Seq<VirtualKey>) -> Seq<KeyStroke> {
    keys.map_values(|k: VirtualKey| KeyStroke { key: k, key_up: false }) + keys.reverse().map_values(
        |k: VirtualKey| KeyStroke { key: k, key_up: true },
    )
}

/// The arrow key that moves towards a direction.
pub open spec fn arrow_key(direction: Direction) -> VirtualKey {
    match direction {
        Direction::Left => VirtualKey::LeftArrow,
        Direction::Right => VirtualKey::RightArrow,
    }
}

/// A keyboard event for a key with the given release flag.
pub fn keyboard_input(key: VirtualKey, key_up: bool) -> (r: KeyStroke)
    ensures
        r == (KeyStroke { key, key_up }),
{
    KeyStroke { key, key_up }
}

/// The press of a key.
pub fn key_down(key: VirtualKey) -> (r: KeyStroke)
    ensures
        r == (KeyStroke { key, key_up: false }),
{
    keyboard_input(key, false)
}

/// The release of a key.
pub fn key_up(key: VirtualKey) -> (r: KeyStroke)
    ensures
        r == (KeyStroke { key, key_up: true }),
{
    keyboard_input(key, true)
}

/// The strokes of Ctrl+Win+arrow, which switch to the neighbouring virtual
/// desktop in `direction`.
pub fn switch_desktop_keys(direction: Direction) -> (r: Vec<KeyStroke>)
    ensures
        r@ == chord(seq![VirtualKey::Control, VirtualKey::LeftWindows, arrow_key(direction)]),
{
    let arrow = match direction {
        Direction::Left => VirtualKey::LeftArrow,
        Direction::Right => VirtualKey::RightArrow,
    };
    let mut strokes: Vec<KeyStroke> = Vec::new();
    strokes.push(key_down(VirtualKey::Control));
    strokes.push(key_down(VirtualKey::LeftWindows));
    strokes.push(key_down(arrow));
    strokes.push(key_up(arrow));
    strokes.push(key_up(VirtualKey::LeftWindows));
    strokes.push(key_up(VirtualKey::Control));
    let ghost keys = seq![VirtualKey::Control, VirtualKey::LeftWindows, arrow_key(direction)];
    assert(keys.reverse() =~= seq![arrow_key(direction), VirtualKey::LeftWindows, VirtualKey::Control]);
    assert(strokes@ =~= chord(keys));
    strokes
}

/// The strokes of Win+Tab, which open the task view.
pub fn show_task_view_keys() -> (r: Vec<KeyStroke>)
    ensures
        r@ == chord(seq![VirtualKey::LeftWindows, VirtualKey::Tab]),
{
    let mut strokes: Vec<KeyStroke> = Vec::new();
    strokes.push(key_down(VirtualKey::LeftWindows));
    strokes.push(key_down(VirtualKey::Tab));
    strokes.push(key_up(VirtualKey::Tab));
    strokes.push(key_up(VirtualKey::LeftWindows));
    let ghost keys = seq![VirtualKey::LeftWindows, VirtualKey::Tab];
    assert(keys.reverse() =~= seq![VirtualKey::Tab, VirtualKey::LeftWindows]);
    assert(strokes@ =~= chord(keys));
    strokes
}

/// Whether a send of `len` inputs succeeded: the number of inputs the system
/// accepted equals the number sent, counted as a 32-bit value.
pub fn all_inputs_sent(sent: u32, len: usize) -> (r: bool)
    ensures
        r == (sent == len as u32),
{
    sent == #[verifier::truncate] (len as u32)
}

/// A shortcut presses each of its keys before it releases any, and releases
/// them in the reverse order: the `i`-th key is the `i`-th stroke, pressed,
/// and its release is the `i`-th stroke from the end.
pub proof fn lemma_chord_releases_in_reverse(keys: Seq<VirtualKey>, i: int)
    requires
        0 <= i < keys.len(),
    ensures
        chord(keys).len() == 2 * keys.len(),
        chord(keys)[i] == (KeyStroke { key: keys[i], key_up: false }),
        chord(keys)[2 * keys.len() - 1 - i] == (KeyStroke { key: keys[i], key_up: true }),
{
}


/// The virtual-key codes of the shortcut keys and the arrow of each
/// direction: left switches with the left arrow, right with the right arrow.
pub proof fn lemma_key_codes_and_arrows()
    ensures
        key_code(VirtualKey::Control) == 0x11,
        key_code(VirtualKey::LeftWindows) == 0x5B,
        key_code(VirtualKey::LeftArrow) == 0x25,
        key_code(VirtualKey::RightArrow) == 0x27,
        key_code(VirtualKey::Tab) == 0x09,
        arrow_key(Direction::Left) == VirtualKey::LeftArrow,
        arrow_key(Direction::Right) == VirtualKey::RightArrow,
{
}

} // verus!
