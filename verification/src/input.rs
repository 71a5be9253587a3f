//! The input state machine: key events decoded into a command enum,
//! one dispatch table per mode, and the single step that the
//! interaction loop takes per event.

use vstd::prelude::*;

use crate::state::AppState;
use crate::state::Mode;
use crate::state::append_char_spec;
use crate::state::backspace_spec;
use crate::state::begin_compose_spec;
use crate::state::cancel_compose_spec;
use crate::state::delete_selected_spec;
use crate::state::move_down_spec;
use crate::state::move_up_spec;
use crate::state::submit_compose_spec;

verus! {

/// A key event, decoded once from the raw terminal event before it is
/// dispatched. Everything the two mode tables do not name is `Other`.
#[derive(Debug, Clone, Copy)]
pub enum Key {
    Char(char),
    Backspace,
    Enter,
    Esc,
    Other,
}

/// What the composing-mode handler asks the caller to do next.
#[derive(Debug, Clone, Copy)]
pub enum FormAction {
    Nothing,
    Submit,
    Escape,
}

/// The browsing-mode dispatch table: `Esc` quits; `j`/`k` move the
/// selection down/up; `A` begins composing; `D` deletes the selected
/// row; every other key is a no-op.
pub open spec fn browse_step_spec(pre: AppState, key: Key, post: AppState, quit: bool) -> bool {
    match key {
        Key::Esc => quit && post == pre,
        Key::Char(c) => !quit && if c == 'j' {
            move_down_spec(pre, post)
        } else if c == 'k' {
            move_up_spec(pre, post)
        } else if c == 'A' {
            begin_compose_spec(pre, post)
        } else if c == 'D' {
            delete_selected_spec(pre, post)
        } else {
            post == pre
        },
        _ => !quit && post == pre,
    }
}

/// The composing-mode dispatch table: a character is appended,
/// backspace edits, escape cancels the draft, enter submits it; every
/// other key is a no-op. Composing never quits.
pub open spec fn compose_step_spec(pre: AppState, key: Key, post: AppState) -> bool {
    match key {
        Key::Char(c) => append_char_spec(pre, c, post),
        Key::Backspace => backspace_spec(pre, post),
        Key::Esc => cancel_compose_spec(pre, post),
        Key::Enter => submit_compose_spec(pre, post),
        _ => post == pre,
    }
}

/// The whole transition relation of the interaction loop: which table
/// applies is decided by the mode the state was in.
pub open spec fn step_spec(pre: AppState, key: Key, post: AppState, quit: bool) -> bool {
    match pre.mode {
        Mode::Browsing => browse_step_spec(pre, key, post, quit),
        Mode::Composing => !quit && compose_step_spec(pre, key, post),
    }
}

/// Handles one key while composing: edits the buffer in place and
/// reports whether the caller must submit or cancel the draft.
pub fn handle_add_new(key: Key, app_state: &mut AppState) -> (action: FormAction)
    requires
        old(app_state).inv(),
        old(app_state).mode == Mode::Composing,
    ensures
        final(app_state).inv(),
        final(app_state).mode == Mode::Composing,
        match key {
            Key::Char(c) => action is Nothing && append_char_spec(*old(app_state), c, *final(app_state)),
            Key::Backspace => action is Nothing && backspace_spec(*old(app_state), *final(app_state)),
            Key::Esc => action is Escape && *final(app_state) == *old(app_state),
            Key::Enter => action is Submit && *final(app_state) == *old(app_state),
            Key::Other => action is Nothing && *final(app_state) == *old(app_state),
        },
{
    match key {
        Key::Char(c) => {
            app_state.append_char(c);
        },
        Key::Backspace => {
            app_state.backspace();
        },
        Key::Esc => {
            return FormAction::Escape;
        },
        Key::Enter => {
            return FormAction::Submit;
        },
        Key::Other => {},
    }
    FormAction::Nothing
}

/// Handles one key while browsing, per the browsing dispatch table;
/// returns whether the loop must terminate.
pub fn handle_key(key: Key, app_state: &mut AppState) -> (quit: bool)
    requires
        old(app_state).inv(),
        old(app_state).mode == Mode::Browsing,
    ensures
        final(app_state).inv(),
        browse_step_spec(*old(app_state), key, *final(app_state), quit),
{
    match key {
        Key::Esc => {
            return true;
        },
        Key::Char(c) => {
            if c == 'j' {
                app_state.move_selection_down();
            } else if c == 'k' {
                app_state.move_selection_up();
            } else if c == 'A' {
                app_state.begin_compose();
            } else if c == 'D' {
                app_state.delete_selected();
            }
        },
        _ => {},
    }
    false
}

/// One iteration of the interaction loop's decision part: dispatches
/// the key through the table of the active mode and says whether the
/// loop must terminate. The caller renders and reads events.
pub fn step(app_state: &mut AppState, key: Key) -> (quit: bool)
    requires
        old(app_state).inv(),
    ensures
        final(app_state).inv(),
        step_spec(*old(app_state), key, *final(app_state), quit),
{
    match app_state.mode {
        Mode::Composing => {
            match handle_add_new(key, app_state) {
                FormAction::Nothing => {},
                FormAction::Submit => {
                    app_state.submit_compose();
                },
                FormAction::Escape => {
                    app_state.cancel_compose();
                },
            }
            false
        },
        Mode::Browsing => handle_key(key, app_state),
    }
}

} // verus!
