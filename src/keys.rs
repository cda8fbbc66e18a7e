//! Keyboard events as the keymaps see them, and the editing actions that
//! the keymaps choose.

use vstd::prelude::*;

verus! {

/// The key of a key event.
#[derive(Clone, Copy, Debug, PartialEq, Eq, Structural)]
pub enum KeyCode {
    Char(char),
    Left,
    Right,
    Up,
    Down,
    Backspace,
    Other,
}

/// The modifier keys held during a key event.
#[derive(Clone, Copy, Debug, PartialEq, Eq, Structural)]
pub enum Modifiers {
    /// No modifier.
    Plain,
    Shift,
    Control,
    /// Any other combination.
    Other,
}

/// A key event.
#[derive(Clone, Copy, Debug, PartialEq, Eq, Structural)]
pub struct KeyEvent {
    pub code: KeyCode,
    pub modifiers: Modifiers,
    /// The key went down (not a repeat or a release).
    pub press: bool,
    /// No lock key state (caps lock, num lock, keypad) is attached.
    pub plain_state: bool,
}

/// A terminal input event.
#[derive(Clone, Copy, Debug, PartialEq, Eq, Structural)]
pub enum Event {
    Key(KeyEvent),
    /// Resize, mouse, focus, paste and the like.
    Other,
}

/// How typed characters enter the query.
#[derive(Clone, Copy, Debug, PartialEq, Eq, Structural)]
pub enum EditMode {
    Insert,
    Overwrite,
}

/// What a keymap asks of the text editor or of the list.
#[derive(Clone, Copy, Debug, PartialEq, Eq, Structural)]
pub enum EditAction {
    Nothing,
    /// Move the text cursor one position left.
    Backward,
    /// Move the text cursor one position right.
    Forward,
    MoveToHead,
    MoveToTail,
    /// Erase the character before the cursor.
    Erase,
    /// Erase the whole query.
    EraseAll,
    Insert(char),
    Overwrite(char),
    /// Move the list selection up.
    ListBackward,
    /// Move the list selection down.
    ListForward,
}

/// The user pressed ctrl-c.
#[derive(Clone, Copy, Debug, PartialEq, Eq, Structural)]
pub struct Interrupted;

/// The event is a plain press of `code` with exactly the modifiers `m`.
pub open spec fn is_key(e: Event, code: KeyCode, m: Modifiers) -> bool {
    match e {
        Event::Key(k) => k.code == code && k.modifiers == m && k.press && k.plain_state,
        Event::Other => false,
    }
}

/// The event is a plain press of ctrl and the character `c`.
pub open spec fn is_ctrl(e: Event, c: char) -> bool {
    is_key(e, KeyCode::Char(c), Modifiers::Control)
}

/// The character that a plain press types, with or without shift.
pub open spec fn typed_char(e: Event) -> Option<char> {
    match e {
        Event::Key(k) => match k.code {
            KeyCode::Char(c) => if k.press && k.plain_state && (k.modifiers == Modifiers::Plain
                || k.modifiers == Modifiers::Shift) {
                Some(c)
            } else {
                None
            },
            _ => None,
        },
        Event::Other => None,
    }
}

/// The editing shared by both keymaps: left and right move the cursor,
/// ctrl-a and ctrl-e jump to the start and the end, backspace erases one
/// character, ctrl-u erases the query, a typed character is inserted or
/// overwrites as the edit mode says; anything else does nothing.
pub open spec fn edit_action(e: Event, mode: EditMode) -> EditAction {
    if is_key(e, KeyCode::Left, Modifiers::Plain) {
        EditAction::Backward
    } else if is_key(e, KeyCode::Right, Modifiers::Plain) {
        EditAction::Forward
    } else if is_ctrl(e, 'a') {
        EditAction::MoveToHead
    } else if is_ctrl(e, 'e') {
        EditAction::MoveToTail
    } else if is_key(e, KeyCode::Backspace, Modifiers::Plain) {
        EditAction::Erase
    } else if is_ctrl(e, 'u') {
        EditAction::EraseAll
    } else {
        match typed_char(e) {
            Some(c) => match mode {
                EditMode::Insert => EditAction::Insert(c),
                EditMode::Overwrite => EditAction::Overwrite(c),
            },
            None => EditAction::Nothing,
        }
    }
}

/// Whether the event is a plain press of `code` with exactly modifiers `m`.
pub fn key_is(e: &Event, code: KeyCode, m: Modifiers) -> (r: bool)
    ensures
        r == is_key(*e, code, m),
{
    match e {
        Event::Key(k) => k.code == code && k.modifiers == m && k.press && k.plain_state,
        Event::Other => false,
    }
}

/// The editing action that the event asks for.
pub fn edit_action_of(e: &Event, mode: EditMode) -> (r: EditAction)
    ensures
        r == edit_action(*e, mode),
{
    if key_is(e, KeyCode::Left, Modifiers::Plain) {
        EditAction::Backward
    } else if key_is(e, KeyCode::Right, Modifiers::Plain) {
        EditAction::Forward
    } else if key_is(e, KeyCode::Char('a'), Modifiers::Control) {
        EditAction::MoveToHead
    } else if key_is(e, KeyCode::Char('e'), Modifiers::Control) {
        EditAction::MoveToTail
    } else if key_is(e, KeyCode::Backspace, Modifiers::Plain) {
        EditAction::Erase
    } else if key_is(e, KeyCode::Char('u'), Modifiers::Control) {
        EditAction::EraseAll
    } else {
        let typed = match e {
            Event::Key(k) => match k.code {
                KeyCode::Char(c) => if k.press && k.plain_state && (k.modifiers == Modifiers::Plain
                    || k.modifiers == Modifiers::Shift) {
                    Some(c)
                } else {
                    None
                },
                _ => None,
            },
            Event::Other => None,
        };
        match typed {
            Some(c) => match mode {
                EditMode::Insert => EditAction::Insert(c),
                EditMode::Overwrite => EditAction::Overwrite(c),
            },
            None => EditAction::Nothing,
        }
    }
}

} // verus!
