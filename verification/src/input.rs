//! Keys and what they ask the viewer to do.

use vstd::prelude::*;

verus! {

/// A key press, as far as the viewer tells keys apart.
#[derive(Clone, Copy, Debug, PartialEq, Eq, Structural)]
pub enum Key {
    Up,
    Down,
    Enter,
    Esc,
    Char(char),
    /// Any key the viewer has no binding for.
    Other,
}

/// What the user asked for with one input event.
#[derive(Clone, Copy, Debug, PartialEq, Eq, Structural)]
pub enum UserAction {
    MoveUp,
    MoveDown,
    Quit,
    Open,
    Delete,
    ToggleKeybinds,
    /// Nothing: an unbound key, an event that is no key press, or a failed read.
    Nothing,
}

/// The key bindings: arrows or `k`/`j` move, `q` or Esc quits, Enter opens,
/// `x` deletes, `?` toggles the key help.
pub open spec fn action_of(key: Key) -> UserAction {
    match key {
        Key::Up => UserAction::MoveUp,
        Key::Down => UserAction::MoveDown,
        Key::Esc => UserAction::Quit,
        Key::Enter => UserAction::Open,
        Key::Char(c) => if c == 'k' {
            UserAction::MoveUp
        } else if c == 'j' {
            UserAction::MoveDown
        } else if c == 'q' {
            UserAction::Quit
        } else if c == 'x' {
            UserAction::Delete
        } else if c == '?' {
            UserAction::ToggleKeybinds
        } else {
            UserAction::Nothing
        },
        Key::Other => UserAction::Nothing,
    }
}

/// What one read of the input means: `None` stands for a read that failed
/// or gave an event other than a key press.
pub open spec fn action_of_input(input: Option<Key>) -> UserAction {
    match input {
        Some(key) => action_of(key),
        None => UserAction::Nothing,
    }
}

/// The action bound to `key`.
pub fn action_for_key(key: Key) -> (action: UserAction)
    ensures
        action == action_of(key),
{
    match key {
        Key::Up | Key::Char('k') => UserAction::MoveUp,
        Key::Down | Key::Char('j') => UserAction::MoveDown,
        Key::Char('q') | Key::Esc => UserAction::Quit,
        Key::Enter => UserAction::Open,
        Key::Char('x') => UserAction::Delete,
        Key::Char('?') => UserAction::ToggleKeybinds,
        _ => UserAction::Nothing,
    }
}

/// The action for one read of the input. Anything but a key press asks
/// for nothing.
pub fn handle_user_input(input: Option<Key>) -> (action: UserAction)
    ensures
        action == action_of_input(input),
{
    match input {
        Some(key) => action_for_key(key),
        None => UserAction::Nothing,
    }
}

} // verus!
