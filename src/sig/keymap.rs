//! The streaming mode's keymap.

use vstd::prelude::*;

use crate::keys::{edit_action, edit_action_of, is_ctrl, key_is, EditAction, EditMode, Event,
    Interrupted, KeyCode, Modifiers};
use crate::Signal;

verus! {

/// The streaming keymap: ctrl-f freezes the store into archived mode,
/// ctrl-r restarts the source when a command was given, ctrl-c interrupts;
/// any other event edits the query as in archived mode.
pub open spec fn streaming_reaction(e: Event, mode: EditMode, has_cmd: bool) -> Result<
    (Signal, EditAction),
    Interrupted,
> {
    if is_ctrl(e, 'f') {
        Ok((Signal::GotoArchived, EditAction::Nothing))
    } else if is_ctrl(e, 'r') {
        if has_cmd {
            Ok((Signal::GotoStreaming, EditAction::Nothing))
        } else {
            Ok((Signal::Continue, EditAction::Nothing))
        }
    } else if is_ctrl(e, 'c') {
        Err(Interrupted)
    } else {
        Ok((Signal::Continue, edit_action(e, mode)))
    }
}

/// Reacts to one event in streaming mode: the signal for the mode
/// controller and the action on the query editor, or `Interrupted` on
/// ctrl-c.
pub fn default(event: &Event, edit_mode: EditMode, cmd: &Option<String>) -> (r: Result<
    (Signal, EditAction),
    Interrupted,
>)
    ensures
        r == streaming_reaction(*event, edit_mode, cmd is Some),
{
    if key_is(event, KeyCode::Char('f'), Modifiers::Control) {
        Ok((Signal::GotoArchived, EditAction::Nothing))
    } else if key_is(event, KeyCode::Char('r'), Modifiers::Control) {
        if cmd.is_some() {
            Ok((Signal::GotoStreaming, EditAction::Nothing))
        } else {
            Ok((Signal::Continue, EditAction::Nothing))
        }
    } else if key_is(event, KeyCode::Char('c'), Modifiers::Control) {
        Err(Interrupted)
    } else {
        Ok((Signal::Continue, edit_action_of(event, edit_mode)))
    }
}

} // verus!
