//! The closed set of key bindings, which of them are currently usable, and
//! the resolver that turns a pressed key into a semantic action.
use vstd::prelude::*;

verus! {

/// Which key bindings currently work.
#[derive(Debug, Clone, Copy, PartialEq, Eq, Structural)]
pub struct WorkingKeys {
    pub q: bool,
    pub e: bool,
    pub r: bool,
    pub up: bool,
    pub down: bool,
    pub left: bool,
    pub right: bool,
    pub enter: bool,
}

impl WorkingKeys {
    /// The bindings that stay usable whatever the target list holds.
    pub open spec fn control_only() -> WorkingKeys {
        WorkingKeys {
            q: true,
            e: true,
            r: true,
            up: false,
            down: false,
            left: false,
            right: false,
            enter: false,
        }
    }

    /// Every binding usable.
    pub open spec fn all() -> WorkingKeys {
        WorkingKeys {
            q: true,
            e: true,
            r: true,
            up: true,
            down: true,
            left: true,
            right: true,
            enter: true,
        }
    }

    /// The footer entries: key name, what it does, and whether it works now.
    pub open spec fn info_list(self) -> Seq<(&'static str, &'static str, bool)> {
        seq![
            ("Up", "Previous server/username", self.up),
            ("Down", "Next server/username", self.down),
            ("Left", "Choose from servers", self.left),
            ("Right", "Choose from usernames", self.right),
            ("q", "Quit", self.q),
            ("e", "Edit config file", self.e),
            ("r", "Reload config file", self.r),
            ("Enter", "Choose", self.enter),
        ]
    }

    /// Only quit, edit and reload enabled.
    pub fn new_control_only() -> (keys: WorkingKeys)
        ensures
            keys == WorkingKeys::control_only(),
    {
        WorkingKeys {
            q: true,
            e: true,
            r: true,
            up: false,
            down: false,
            left: false,
            right: false,
            enter: false,
        }
    }

    /// Every binding enabled.
    pub fn new_all() -> (keys: WorkingKeys)
        ensures
            keys == WorkingKeys::all(),
    {
        WorkingKeys {
            q: true,
            e: true,
            r: true,
            up: true,
            down: true,
            left: true,
            right: true,
            enter: true,
        }
    }

    /// Lists every binding, in display order, with its enabled flag.
    pub fn to_info_list(&self) -> (list: Vec<(&'static str, &'static str, bool)>)
        ensures
            list@ == self.info_list(),
    {
        let mut list: Vec<(&'static str, &'static str, bool)> = Vec::new();
        list.push(("Up", "Previous server/username", self.up));
        list.push(("Down", "Next server/username", self.down));
        list.push(("Left", "Choose from servers", self.left));
        list.push(("Right", "Choose from usernames", self.right));
        list.push(("q", "Quit", self.q));
        list.push(("e", "Edit config file", self.e));
        list.push(("r", "Reload config file", self.r));
        list.push(("Enter", "Choose", self.enter));
        assert(list@ =~= self.info_list());
        list
    }
}

/// A key press, reduced to what the picker distinguishes.
#[derive(Debug, Clone, Copy, PartialEq, Eq, Structural)]
pub enum Key {
    Char(char),
    Enter,
    Up,
    Down,
    Left,
    Right,
    Backspace,
    Other,
}

/// What a key press means in the current mode.
#[derive(Debug, Clone, Copy, PartialEq, Eq, Structural)]
pub enum KeyAction {
    Quit,
    Edit,
    Reload,
    Confirm,
    MoveUp,
    MoveDown,
    MoveLeft,
    MoveRight,
    Ignored,
}

/// The meaning of `key` when `choosing_username` tells whether the identity
/// panel has focus, `overlay` whether an error text covers the lists, and
/// `working` which bindings are enabled.
///
/// Quit, edit and reload always fire. Enter confirms from the identity
/// panel even under an overlay. Every other key is ignored under an overlay;
/// without one, a navigation key moves only if its binding is enabled.
pub open spec fn resolved(
    key: Key,
    choosing_username: bool,
    overlay: bool,
    working: WorkingKeys,
) -> KeyAction {
    match key {
        Key::Char(c) => if c == 'q' {
            KeyAction::Quit
        } else if c == 'e' {
            KeyAction::Edit
        } else if c == 'r' {
            KeyAction::Reload
        } else {
            KeyAction::Ignored
        },
        Key::Enter => if choosing_username {
            KeyAction::Confirm
        } else if overlay || !working.right {
            KeyAction::Ignored
        } else {
            KeyAction::MoveRight
        },
        Key::Up => if overlay || !working.up {
            KeyAction::Ignored
        } else {
            KeyAction::MoveUp
        },
        Key::Down => if overlay || !working.down {
            KeyAction::Ignored
        } else {
            KeyAction::MoveDown
        },
        Key::Left | Key::Backspace => if overlay || !working.left {
            KeyAction::Ignored
        } else {
            KeyAction::MoveLeft
        },
        Key::Right => if overlay || !working.right {
            KeyAction::Ignored
        } else {
            KeyAction::MoveRight
        },
        Key::Other => KeyAction::Ignored,
    }
}

/// Resolves a key press to its action.
pub fn resolve(key: Key, choosing_username: bool, overlay: bool, working: &WorkingKeys) -> (action:
    KeyAction)
    ensures
        action == resolved(key, choosing_username, overlay, *working),
{
    match key {
        Key::Char('q') => KeyAction::Quit,
        Key::Char('e') => KeyAction::Edit,
        Key::Char('r') => KeyAction::Reload,
        Key::Enter if choosing_username => KeyAction::Confirm,
        _ if overlay => KeyAction::Ignored,
        Key::Up if working.up => KeyAction::MoveUp,
        Key::Down if working.down => KeyAction::MoveDown,
        Key::Left if working.left => KeyAction::MoveLeft,
        Key::Backspace if working.left => KeyAction::MoveLeft,
        Key::Right if working.right => KeyAction::MoveRight,
        Key::Enter if working.right => KeyAction::MoveRight,
        _ => KeyAction::Ignored,
    }
}

impl WorkingKeys {
    /// Whether the binding behind `action` is enabled. Nothing needs to be
    /// enabled for a key to be ignored.
    pub open spec fn enables(self, action: KeyAction) -> bool {
        match action {
            KeyAction::Quit => self.q,
            KeyAction::Edit => self.e,
            KeyAction::Reload => self.r,
            KeyAction::Confirm => self.enter,
            KeyAction::MoveUp => self.up,
            KeyAction::MoveDown => self.down,
            KeyAction::MoveLeft => self.left,
            KeyAction::MoveRight => self.right,
            KeyAction::Ignored => true,
        }
    }

    /// Tells whether the binding behind `action` is enabled.
    pub fn is_enabled(&self, action: KeyAction) -> (enabled: bool)
        ensures
            enabled == self.enables(action),
    {
        match action {
            KeyAction::Quit => self.q,
            KeyAction::Edit => self.e,
            KeyAction::Reload => self.r,
            KeyAction::Confirm => self.enter,
            KeyAction::MoveUp => self.up,
            KeyAction::MoveDown => self.down,
            KeyAction::MoveLeft => self.left,
            KeyAction::MoveRight => self.right,
            KeyAction::Ignored => true,
        }
    }
}

/// A key resolves only to an action whose binding is enabled, as long as
/// quit, edit and reload are enabled and confirming is enabled whenever the
/// identity panel has the focus.
pub proof fn lemma_resolved_is_enabled(
    key: Key,
    choosing_username: bool,
    overlay: bool,
    working: WorkingKeys,
)
    requires
        working.q,
        working.e,
        working.r,
        choosing_username ==> working.enter,
    ensures
        working.enables(resolved(key, choosing_username, overlay, working)),
{
}

/// With no navigation binding enabled and the focus on the target panel,
/// every navigation or confirm key is ignored.
pub proof fn lemma_navigation_ignored_when_disabled(key: Key, overlay: bool)
    requires
        key is Up || key is Down || key is Left || key is Right || key is Backspace || key is Enter,
    ensures
        resolved(key, false, overlay, WorkingKeys::control_only()) == KeyAction::Ignored,
{
}

/// Under an error overlay every key other than `q`, `e` and `r` is ignored,
/// save Enter while the identity panel has focus, which still confirms.
pub proof fn lemma_overlay_ignores_keys(key: Key, choosing_username: bool, working: WorkingKeys)
    requires
        key != Key::Char('q'),
        key != Key::Char('e'),
        key != Key::Char('r'),
        !(key is Enter && choosing_username),
    ensures
        resolved(key, choosing_username, true, working) == KeyAction::Ignored,
{
}

/// `q`, `e` and `r` mean quit, edit and reload in every mode.
pub proof fn lemma_control_keys_always_fire(
    choosing_username: bool,
    overlay: bool,
    working: WorkingKeys,
)
    ensures
        resolved(Key::Char('q'), choosing_username, overlay, working) == KeyAction::Quit,
        resolved(Key::Char('e'), choosing_username, overlay, working) == KeyAction::Edit,
        resolved(Key::Char('r'), choosing_username, overlay, working) == KeyAction::Reload,
{
}

} // verus!
