//! The archived mode's keymap.

use vstd::prelude::*;

use crate::keys::{edit_action, edit_action_of, is_ctrl, is_key, key_is, EditAction, EditMode,
    Event, Interrupted, KeyCode, Modifiers};

verus! {

/// The archived keymap: ctrl-c interrupts, up and down move the list
/// selection, any other event edits the query. It has no transition to
/// another mode.
pub open spec fn archived_reaction(e: Event, mode: EditMode) -> Result<EditAction, Interrupted> {
    if is_ctrl(e, 'c') {
        Err(Interrupted)
    } else if is_key(e, KeyCode::Up, Modifiers::Plain) {
        Ok(EditAction::ListBackward)
    } else if is_key(e, KeyCode::Down, Modifiers::Plain) {
        Ok(EditAction::ListForward)
    } else {
        Ok(edit_action(e, mode))
    }
}

/// Reacts to one event in archived mode: the action on the query editor or
/// on the list, or `Interrupted` on ctrl-c.
pub fn default(event: &Event, edit_mode: EditMode) -> (r: Result<EditAction, Interrupted>)
    ensures
        r == archived_reaction(*event, edit_mode),
{
    if key_is(event, KeyCode::Char('c'), Modifiers::Control) {
        Err(Interrupted)
    } else if key_is(event, KeyCode::Up, Modifiers::Plain) {
        Ok(EditAction::ListBackward)
    } else if key_is(event, KeyCode::Down, Modifiers::Plain) {
        Ok(EditAction::ListForward)
    } else {
        Ok(edit_action_of(event, edit_mode))
    }
}

} // verus!
