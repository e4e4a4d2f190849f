//! The key table: which action each input event stands for.

use vstd::prelude::*;

verus! {

/// Longest wait for one event from the input source, in milliseconds. It
/// bounds the time between two frames, and so how late a key can take effect.
pub const POLL_TIMEOUT_MS: u64 = 50;

/// A key, as far as the key table tells keys apart.
#[derive(Clone, Copy, Debug, PartialEq, Eq)]
pub enum Key {
    Up,
    Down,
    Left,
    Right,
    Tab,
    /// A key that produces a character.
    Char(char),
    /// Any other key.
    Other,
}

/// What happened to the key.
#[derive(Clone, Copy, Debug, PartialEq, Eq)]
pub enum KeyKind {
    Press,
    Repeat,
    Release,
}

/// One event from the input source.
#[derive(Clone, Copy, Debug, PartialEq, Eq)]
pub enum InputEvent {
    /// A key event.
    Key { key: Key, kind: KeyKind },
    /// Anything that is not a key event: mouse, resize, focus.
    Other,
}

/// What the dashboard is asked to do.
#[derive(Clone, Copy, Debug, PartialEq, Eq)]
pub enum Action {
    MoveUp,
    MoveDown,
    PreviousTab,
    NextTab,
    NoOp,
    Quit,
    /// A character without a meaning of its own.
    Custom(char),
}

/// The action of a pressed key.
///
/// The arrow keys and Tab change the tab; `k` and `j` move like Up and
/// Down; `h` and `l` stand where Left and Right would be, but do not change
/// the tab; `q` quits; every other character is handed on as it is, and
/// every other key does nothing.
pub open spec fn key_action(key: Key) -> Action {
    match key {
        Key::Up => Action::MoveUp,
        Key::Down => Action::MoveDown,
        Key::Left => Action::PreviousTab,
        Key::Right => Action::NextTab,
        Key::Tab => Action::NextTab,
        Key::Char(c) => if c == 'k' {
            Action::MoveUp
        } else if c == 'j' {
            Action::MoveDown
        } else if c == 'h' || c == 'l' {
            Action::NoOp
        } else if c == 'q' {
            Action::Quit
        } else {
            Action::Custom(c)
        },
        Key::Other => Action::NoOp,
    }
}

/// The action of what one poll of the input source gave: nothing within the
/// timeout (`None`), or one event. Only a key that was pressed acts; a
/// repeated or released key, and any other event, does nothing.
pub open spec fn event_action(event: Option<InputEvent>) -> Action {
    match event {
        Some(InputEvent::Key { key, kind: KeyKind::Press }) => key_action(key),
        _ => Action::NoOp,
    }
}

/// Looks a pressed key up in the key table.
pub fn action_for_key(key: Key) -> (action: Action)
    ensures
        action == key_action(key),
{
    match key {
        Key::Up => Action::MoveUp,
        Key::Down => Action::MoveDown,
        Key::Left => Action::PreviousTab,
        Key::Right | Key::Tab => Action::NextTab,
        Key::Char('k') => Action::MoveUp,
        Key::Char('j') => Action::MoveDown,
        Key::Char('h') | Key::Char('l') => Action::NoOp,
        Key::Char('q') => Action::Quit,
        Key::Char(c) => Action::Custom(c),
        Key::Other => Action::NoOp,
    }
}

/// Turns the outcome of one poll into the action it stands for.
///
/// Every outcome has exactly one action, the one that [`event_action`]
/// names: the table has no gaps and no choices.
pub fn dispatch(event: Option<InputEvent>) -> (action: Action)
    ensures
        action == event_action(event),
        event is None ==> action == Action::NoOp,
{
    match event {
        Some(InputEvent::Key { key, kind: KeyKind::Press }) => action_for_key(key),
        _ => Action::NoOp,
    }
}

} // verus!
