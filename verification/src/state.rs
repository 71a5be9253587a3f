//! The application state: an ordered list of todo items, an optional
//! selection cursor, a mode flag (browsing or composing), and the text
//! buffer that accumulates a new item's description while composing.

use vstd::prelude::*;

verus! {

/// Relies on std's `String::push`: appends the given char to the end
/// of this `String`.
pub assume_specification[ String::push ](s: &mut String, ch: char)
    ensures
        final(s)@ == old(s)@.push(ch),
;

/// Relies on std's `String::pop`: removes the last character from the
/// string and returns it, or returns `None` if the string is empty.
pub assume_specification[ String::pop ](s: &mut String) -> (r: Option<char>)
    ensures
        old(s)@.len() == 0 ==> r is None && final(s)@ == old(s)@,
        old(s)@.len() > 0 ==> r == Some(old(s)@.last()) && final(s)@ == old(s)@.drop_last(),
;

/// One entry of the todo list. Created when the user submits the
/// compose prompt; never mutated afterwards.
#[derive(Debug)]
pub struct TodoItem {
    pub is_done: bool,
    pub description: String,
}

/// Which of the two exclusive interaction states is active.
#[derive(Debug, Clone, Copy, PartialEq, Eq, Structural)]
pub enum Mode {
    /// Moving the selection over the list, deleting, or quitting.
    Browsing,
    /// Typing the description of a new item into the buffer.
    Composing,
}

/// The whole mutable state of the application.
#[derive(Debug)]
pub struct AppState {
    /// Insertion order is display order.
    pub items: Vec<TodoItem>,
    /// The highlighted row, absent when the list is empty or nothing
    /// has been selected yet.
    pub selection: Option<usize>,
    pub mode: Mode,
    /// The in-progress description while composing.
    pub buffer: String,
}

/// Where the selection moves on a "down" command: clamped at the last
/// row, first row when nothing was selected, absent on an empty list.
pub open spec fn sel_down(sel: Option<usize>, len: int) -> Option<usize> {
    if len == 0 {
        None
    } else {
        match sel {
            None => Some(0usize),
            Some(i) => if i + 1 < len {
                Some((i + 1) as usize)
            } else {
                Some((len - 1) as usize)
            },
        }
    }
}

/// Where the selection moves on an "up" command: clamped at the first
/// row, last row when nothing was selected, absent on an empty list.
pub open spec fn sel_up(sel: Option<usize>, len: int) -> Option<usize> {
    if len == 0 {
        None
    } else {
        match sel {
            None => Some((len - 1) as usize),
            Some(i) => if i == 0 {
                Some(0usize)
            } else {
                Some((i - 1) as usize)
            },
        }
    }
}

/// Transition of `move_selection_down`: only the selection changes,
/// and it moves as `sel_down` says.
pub open spec fn move_down_spec(pre: AppState, post: AppState) -> bool {
    &&& post.items == pre.items
    &&& post.mode == pre.mode
    &&& post.buffer == pre.buffer
    &&& post.selection == sel_down(pre.selection, pre.items@.len() as int)
}

/// Transition of `move_selection_up`: only the selection changes, and
/// it moves as `sel_up` says.
pub open spec fn move_up_spec(pre: AppState, post: AppState) -> bool {
    &&& post.items == pre.items
    &&& post.mode == pre.mode
    &&& post.buffer == pre.buffer
    &&& post.selection == sel_up(pre.selection, pre.items@.len() as int)
}

/// Transition of `begin_compose`: switch to composing with an empty
/// buffer; items and selection are untouched.
pub open spec fn begin_compose_spec(pre: AppState, post: AppState) -> bool {
    &&& post.items == pre.items
    &&& post.selection == pre.selection
    &&& post.mode == Mode::Composing
    &&& post.buffer@.len() == 0
}

/// Transition of `append_char`: one character is appended to the
/// buffer; everything else is untouched.
pub open spec fn append_char_spec(pre: AppState, c: char, post: AppState) -> bool {
    &&& post.items == pre.items
    &&& post.selection == pre.selection
    &&& post.mode == pre.mode
    &&& post.buffer@ == pre.buffer@.push(c)
}

/// Transition of `backspace`: the last character of the buffer is
/// dropped if there is one; everything else is untouched.
pub open spec fn backspace_spec(pre: AppState, post: AppState) -> bool {
    &&& post.items == pre.items
    &&& post.selection == pre.selection
    &&& post.mode == pre.mode
    &&& post.buffer@ == if pre.buffer@.len() == 0 {
        pre.buffer@
    } else {
        pre.buffer@.drop_last()
    }
}

/// Transition of `submit_compose`: exactly one item is appended, not
/// done, with the buffer's content as its description; the mode returns
/// to browsing with an empty buffer; the selection is untouched.
pub open spec fn submit_compose_spec(pre: AppState, post: AppState) -> bool {
    &&& post.items@.len() == pre.items@.len() + 1
    &&& post.items@.drop_last() == pre.items@
    &&& post.items@.last().is_done == false
    &&& post.items@.last().description@ == pre.buffer@
    &&& post.selection == pre.selection
    &&& post.mode == Mode::Browsing
    &&& post.buffer@.len() == 0
}

/// Transition of `cancel_compose`: the draft is discarded, the mode
/// returns to browsing with an empty buffer, and the item sequence is
/// never mutated.
pub open spec fn cancel_compose_spec(pre: AppState, post: AppState) -> bool {
    &&& post.items == pre.items
    &&& post.selection == pre.selection
    &&& post.mode == Mode::Browsing
    &&& post.buffer@.len() == 0
}

/// Transition of `delete_selected`: with no selection nothing happens;
/// otherwise the selected row is removed and the selection is repaired:
/// absent when the list became empty, moved to the new last row when
/// the removed row was the last one, unchanged otherwise.
pub open spec fn delete_selected_spec(pre: AppState, post: AppState) -> bool {
    match pre.selection {
        None => post == pre,
        Some(i) => {
            &&& post.items@ == pre.items@.remove(i as int)
            &&& post.mode == pre.mode
            &&& post.buffer == pre.buffer
            &&& post.selection == if pre.items@.len() <= 1 {
                None::<usize>
            } else if i as int == pre.items@.len() - 1 {
                Some((i - 1) as usize)
            } else {
                Some(i)
            }
        },
    }
}

impl AppState {
    /// The descriptions of the items, in display order.
    pub open spec fn descs(self) -> Seq<Seq<char>> {
        self.items@.map_values(|it: TodoItem| it.description@)
    }

    /// Well-formedness: the selection, when present, points at a row of
    /// the list, and the buffer is empty whenever the mode is browsing.
    pub open spec fn inv(self) -> bool {
        &&& (self.selection matches Some(i) ==> i < self.items@.len())
        &&& (self.mode == Mode::Browsing ==> self.buffer@.len() == 0)
    }

    /// A fresh state: no items, no selection, browsing, empty buffer.
    pub fn new() -> (s: AppState)
        ensures
            s.inv(),
            s.items@.len() == 0,
            s.selection is None,
            s.mode == Mode::Browsing,
            s.buffer@.len() == 0,
    {
        AppState { items: Vec::new(), selection: None, mode: Mode::Browsing, buffer: String::new() }
    }

    /// Advances the selection by one row, clamping at the end of the
    /// list instead of wrapping around.
    pub fn move_selection_down(&mut self)
        requires
            old(self).inv(),
        ensures
            final(self).inv(),
            move_down_spec(*old(self), *final(self)),
    {
        let len: usize = self.items.len();
        if len == 0 {
            self.selection = None;
        } else {
            self.selection = match self.selection {
                None => Some(0),
                Some(i) => if i + 1 < len {
                    Some(i + 1)
                } else {
                    Some(len - 1)
                },
            };
        }
    }

    /// Retreats the selection by one row, clamping at the start of the
    /// list instead of wrapping around.
    pub fn move_selection_up(&mut self)
        requires
            old(self).inv(),
        ensures
            final(self).inv(),
            move_up_spec(*old(self), *final(self)),
    {
        let len: usize = self.items.len();
        if len == 0 {
            self.selection = None;
        } else {
            self.selection = match self.selection {
                None => Some(len - 1),
                Some(i) => if i == 0 {
                    Some(0)
                } else {
                    Some(i - 1)
                },
            };
        }
    }

    /// Switches to composing and clears the text buffer.
    pub fn begin_compose(&mut self)
        requires
            old(self).inv(),
        ensures
            final(self).inv(),
            begin_compose_spec(*old(self), *final(self)),
    {
        self.mode = Mode::Composing;
        self.buffer = String::new();
    }

    /// Appends one character to the text buffer; only valid while
    /// composing.
    pub fn append_char(&mut self, c: char)
        requires
            old(self).inv(),
            old(self).mode == Mode::Composing,
        ensures
            final(self).inv(),
            append_char_spec(*old(self), c, *final(self)),
    {
        self.buffer.push(c);
    }

    /// Removes the last character of the text buffer if it has one;
    /// only valid while composing.
    pub fn backspace(&mut self)
        requires
            old(self).inv(),
            old(self).mode == Mode::Composing,
        ensures
            final(self).inv(),
            backspace_spec(*old(self), *final(self)),
    {
        self.buffer.pop();
    }

    /// Appends a new item holding the buffer's text (a not yet done
    /// one; an empty description is allowed), then returns to browsing
    /// with an empty buffer.
    pub fn submit_compose(&mut self)
        requires
            old(self).inv(),
            old(self).mode == Mode::Composing,
        ensures
            final(self).inv(),
            submit_compose_spec(*old(self), *final(self)),
    {
        let description: String = self.buffer.clone();
        self.items.push(TodoItem { is_done: false, description });
        self.mode = Mode::Browsing;
        self.buffer = String::new();
        proof {
            assert(self.items@.drop_last() =~= old(self).items@);
        }
    }

    /// Discards the draft and returns to browsing with an empty
    /// buffer; the item sequence is never mutated.
    pub fn cancel_compose(&mut self)
        requires
            old(self).inv(),
            old(self).mode == Mode::Composing,
        ensures
            final(self).inv(),
            cancel_compose_spec(*old(self), *final(self)),
    {
        self.mode = Mode::Browsing;
        self.buffer = String::new();
    }

    /// Removes the selected item, if any, and repairs the selection so
    /// that it never dangles: absent when the list became empty, the
    /// new last row when the removed row was the last one, unchanged
    /// otherwise.
    pub fn delete_selected(&mut self)
        requires
            old(self).inv(),
        ensures
            final(self).inv(),
            delete_selected_spec(*old(self), *final(self)),
    {
        if let Some(i) = self.selection {
            self.items.remove(i);
            let len: usize = self.items.len();
            if len == 0 {
                self.selection = None;
            } else if i >= len {
                self.selection = Some(len - 1);
            } else {
                self.selection = Some(i);
            }
        }
    }

    /// Runtime check of the well-formedness invariant, for callers
    /// outside the verified library.
    pub fn is_well_formed(&self) -> (b: bool)
        ensures
            b == self.inv(),
    {
        let sel_ok: bool = match self.selection {
            None => true,
            Some(i) => i < self.items.len(),
        };
        let buf_ok: bool = match self.mode {
            Mode::Browsing => self.buffer.as_str().is_empty(),
            Mode::Composing => true,
        };
        sel_ok && buf_ok
    }
}

impl Default for AppState {
    /// Same as `AppState::new`.
    fn default() -> (s: AppState)
        ensures
            s.inv(),
            s.items@.len() == 0,
            s.selection is None,
            s.mode == Mode::Browsing,
            s.buffer@.len() == 0,
    {
        AppState::new()
    }
}

} // verus!
