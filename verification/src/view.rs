//! The view model: a pure function of the application state that
//! yields what a frame must show, with no side effect on the state.
//! A renderer only has to draw the result.

use vstd::prelude::*;

use crate::state::AppState;
use crate::state::Mode;

verus! {

/// What one frame shows: the two layouts are mutually exclusive and
/// selected by the mode.
#[derive(Debug)]
pub enum Screen {
    /// A single panel holding the text being composed.
    Compose { text: String },
    /// The list of item descriptions, in display order, with the
    /// highlighted row if any.
    Browse { lines: Vec<String>, highlighted: Option<usize> },
}

/// What the frame for a given state must be: while composing, the
/// buffer's text; while browsing, every description in display order
/// and the selection as the highlighted row.
pub open spec fn render_spec(s: AppState, frame: Screen) -> bool {
    match s.mode {
        Mode::Composing => frame matches Screen::Compose { text } && text@ == s.buffer@,
        Mode::Browsing => frame matches Screen::Browse { lines, highlighted }
            && highlighted == s.selection
            && lines@.map_values(|t: String| t@) == s.descs(),
    }
}

/// Computes the frame for the current state. Pure: the state is only
/// read. The highlighted row, if present, is a valid line index.
pub fn render(app_state: &AppState) -> (frame: Screen)
    requires
        app_state.inv(),
    ensures
        render_spec(*app_state, frame),
        (frame matches Screen::Browse { lines, highlighted } ==> (highlighted matches Some(i)
            ==> i < lines@.len())),
{
    match app_state.mode {
        Mode::Composing => Screen::Compose { text: app_state.buffer.clone() },
        Mode::Browsing => {
            let mut lines: Vec<String> = Vec::new();
            let mut idx: usize = 0;
            while idx < app_state.items.len()
                invariant
                    idx <= app_state.items@.len(),
                    lines@.len() == idx,
                    forall|j: int| 0 <= j < idx ==> lines@[j]@ == app_state.items@[j].description@,
                decreases app_state.items@.len() - idx,
            {
                lines.push(app_state.items[idx].description.clone());
                idx = idx + 1;
            }
            proof {
                assert(lines@.map_values(|t: String| t@) =~= app_state.descs());
            }
            Screen::Browse { lines, highlighted: app_state.selection }
        },
    }
}

} // verus!
