//! Keyboard input and its mapping to actions on the form.

use vstd::prelude::*;
use crate::fields::{field_at, spec_field_at, FieldKind};

verus! {

/// The logical key of a keyboard event.
#[derive(Clone, Copy, Debug, PartialEq, Eq, Structural)]
pub enum KeyCode {
    Backspace,
    Enter,
    Left,
    Right,
    Up,
    Down,
    Tab,
    Delete,
    Esc,
    Char(char),
    /// Any key the form has no use for.
    Other,
}

/// Whether a key went down, is held, or came up.
#[derive(Clone, Copy, Debug, PartialEq, Eq, Structural)]
pub enum KeyEventKind {
    Press,
    Repeat,
    Release,
}

/// One keyboard event.
#[derive(Clone, Copy, Debug, PartialEq, Eq, Structural)]
pub struct KeyEvent {
    pub code: KeyCode,
    pub kind: KeyEventKind,
}

/// The way the focus moves: down the form or up.
#[derive(Clone, Copy, Debug, PartialEq, Eq, Structural)]
pub enum Direction {
    Forward,
    Backward,
}

/// What a key asks of the session.
#[derive(Clone, Copy, Debug, PartialEq, Eq, Structural)]
pub enum Action {
    /// Append a character to the focused text field.
    InsertChar(char),
    /// Drop the last character of the focused text field.
    Backspace,
    /// Empty the focused text field.
    ClearField,
    /// Flip the focused toggle.
    ToggleOne,
    /// Flip the whole group of the focused toggle.
    ToggleAll,
    MoveFocus(Direction),
    Confirm,
    Cancel,
}

impl KeyEvent {
    /// The press of a key.
    pub fn new(code: KeyCode) -> (event: KeyEvent)
        ensures
            event == (KeyEvent { code, kind: KeyEventKind::Press }),
    {
        KeyEvent { code, kind: KeyEventKind::Press }
    }
}

impl Direction {
    /// The step the direction adds to a row: `1` forward, `-1` backward.
    pub open spec fn spec_delta(self) -> int {
        match self {
            Direction::Forward => 1,
            Direction::Backward => -1,
        }
    }

    pub fn delta(&self) -> (step: isize)
        ensures
            step == self.spec_delta(),
    {
        match self {
            Direction::Forward => 1,
            Direction::Backward => -1,
        }
    }
}

/// The press of Escape.
pub open spec fn spec_escape() -> KeyEvent {
    KeyEvent { code: KeyCode::Esc, kind: KeyEventKind::Press }
}

/// The press of Enter.
pub open spec fn spec_enter() -> KeyEvent {
    KeyEvent { code: KeyCode::Enter, kind: KeyEventKind::Press }
}

/// Whether the row holds one of the two text fields.
pub open spec fn on_text_field(focus: usize) -> bool {
    spec_field_at(focus) matches Some(FieldKind::Text(_))
}

/// Whether the row holds a toggle of either group.
pub open spec fn on_toggle(focus: usize) -> bool {
    spec_field_at(focus).is_some() && !on_text_field(focus)
}

/// The action a key event asks for while the focus is on `focus`.
///
/// Only presses count. Escape cancels and Enter confirms; Down and Tab move
/// the focus forward and Up moves it back. On a text field a character is
/// inserted, Backspace drops the last character and Delete empties the
/// field. On a toggle the space bar flips it and Right flips its whole
/// group. Every other combination asks for nothing.
pub open spec fn spec_dispatch(event: KeyEvent, focus: usize) -> Option<Action> {
    if event.kind != KeyEventKind::Press {
        None
    } else {
        match event.code {
            KeyCode::Esc => Some(Action::Cancel),
            KeyCode::Enter => Some(Action::Confirm),
            KeyCode::Down | KeyCode::Tab => Some(Action::MoveFocus(Direction::Forward)),
            KeyCode::Up => Some(Action::MoveFocus(Direction::Backward)),
            KeyCode::Right => if on_toggle(focus) {
                Some(Action::ToggleAll)
            } else {
                None
            },
            KeyCode::Char(c) => if on_text_field(focus) {
                Some(Action::InsertChar(c))
            } else if on_toggle(focus) && c == ' ' {
                Some(Action::ToggleOne)
            } else {
                None
            },
            KeyCode::Backspace => if on_text_field(focus) {
                Some(Action::Backspace)
            } else {
                None
            },
            KeyCode::Delete => if on_text_field(focus) {
                Some(Action::ClearField)
            } else {
                None
            },
            KeyCode::Left | KeyCode::Other => None,
        }
    }
}

/// Maps a key event to the action it asks for, if any.
pub fn dispatch(event: &KeyEvent, focus: usize) -> (action: Option<Action>)
    ensures
        action == spec_dispatch(*event, focus),
{
    match event.kind {
        KeyEventKind::Press => {},
        _ => {
            return None;
        },
    }
    let field = field_at(focus);
    let text = match field {
        Some(FieldKind::Text(_)) => true,
        _ => false,
    };
    let toggle = field.is_some() && !text;
    match event.code {
        KeyCode::Esc => Some(Action::Cancel),
        KeyCode::Enter => Some(Action::Confirm),
        KeyCode::Down | KeyCode::Tab => Some(Action::MoveFocus(Direction::Forward)),
        KeyCode::Up => Some(Action::MoveFocus(Direction::Backward)),
        KeyCode::Right => if toggle {
            Some(Action::ToggleAll)
        } else {
            None
        },
        KeyCode::Char(c) => if text {
            Some(Action::InsertChar(c))
        } else if toggle && c == ' ' {
            Some(Action::ToggleOne)
        } else {
            None
        },
        KeyCode::Backspace => if text {
            Some(Action::Backspace)
        } else {
            None
        },
        KeyCode::Delete => if text {
            Some(Action::ClearField)
        } else {
            None
        },
        KeyCode::Left | KeyCode::Other => None,
    }
}

/// Releases and repeats ask for nothing, whatever the key and the focus.
pub proof fn lemma_only_presses_count(event: KeyEvent, focus: usize)
    requires
        event.kind != KeyEventKind::Press,
    ensures
        spec_dispatch(event, focus).is_none(),
{
}

/// Text edits are asked for on text fields only and toggles on toggles
/// only; confirming, cancelling and moving are asked for on every row.
pub proof fn lemma_dispatch_respects_field_kind(event: KeyEvent, focus: usize)
    ensures
        match spec_dispatch(event, focus) {
            Some(Action::InsertChar(_)) | Some(Action::Backspace) | Some(Action::ClearField) => {
                on_text_field(focus)
            },
            Some(Action::ToggleOne) | Some(Action::ToggleAll) => on_toggle(focus),
            _ => true,
        },
{
}

} // verus!
