//! Laws of the state machine, stated over the transition relations
//! that the operations' contracts use and proved once for all inputs.

use vstd::prelude::*;

use crate::input::Key;
use crate::input::step_spec;
use crate::state::AppState;
use crate::state::Mode;
use crate::state::append_char_spec;
use crate::state::begin_compose_spec;
use crate::state::delete_selected_spec;
use crate::state::sel_down;
use crate::state::sel_up;
use crate::state::submit_compose_spec;

verus! {

/// Law: every step of the interaction loop keeps the state well
/// formed; in particular the selection, when present, stays a valid
/// index into the item sequence, whatever key arrives.
pub proof fn lemma_step_preserves_inv(pre: AppState, key: Key, post: AppState, quit: bool)
    requires
        pre.inv(),
        step_spec(pre, key, post, quit),
    ensures
        post.inv(),
{
}

/// One navigation command applied to the selection alone: `j` moves
/// down, `k` moves up, any other key leaves it where it was.
pub open spec fn nav1(sel: Option<usize>, len: int, key: Key) -> Option<usize> {
    match key {
        Key::Char(c) => if c == 'j' {
            sel_down(sel, len)
        } else if c == 'k' {
            sel_up(sel, len)
        } else {
            sel
        },
        _ => sel,
    }
}

/// A whole sequence of navigation commands applied in order.
pub open spec fn nav_seq(sel: Option<usize>, len: int, keys: Seq<Key>) -> Option<usize>
    decreases keys.len(),
{
    if keys.len() == 0 {
        sel
    } else {
        nav_seq(nav1(sel, len, keys[0]), len, keys.skip(1))
    }
}

/// One navigation command keeps the selection within the list's
/// bounds.
pub proof fn lemma_nav1_in_range(sel: Option<usize>, len: int, key: Key)
    requires
        0 <= len <= usize::MAX,
        sel matches Some(i) ==> i < len,
    ensures
        nav1(sel, len, key) matches Some(j) ==> 0 <= j < len,
{
    if nav1(sel, len, key) != sel {
        assert(sel_down(sel, len) matches Some(j) ==> 0 <= j < len);
        assert(sel_up(sel, len) matches Some(j) ==> 0 <= j < len);
    }
}

/// Law: after any sequence of navigation commands, the selection, if
/// present, lies within the list's bounds.
pub proof fn lemma_nav_sequence_in_range(sel: Option<usize>, len: int, keys: Seq<Key>)
    requires
        0 <= len <= usize::MAX,
        sel matches Some(i) ==> i < len,
    ensures
        nav_seq(sel, len, keys) matches Some(j) ==> 0 <= j < len,
    decreases keys.len(),
{
    if keys.len() > 0 {
        lemma_nav1_in_range(sel, len, keys[0]);
        lemma_nav_sequence_in_range(nav1(sel, len, keys[0]), len, keys.skip(1));
    }
}

/// Law: navigation clamps at both ends of the list rather than
/// wrapping: moving down from the last row stays on the last row, and
/// moving up from the first row stays on the first.
pub proof fn lemma_nav_clamps(len: int)
    requires
        0 < len <= usize::MAX,
    ensures
        sel_down(Some((len - 1) as usize), len) == Some((len - 1) as usize),
        sel_up(Some(0usize), len) == Some(0usize),
{
}

/// Law: deleting the only item of a one-element list yields an empty
/// list and an absent selection.
pub proof fn lemma_delete_singleton(pre: AppState, post: AppState)
    requires
        pre.inv(),
        pre.items@.len() == 1,
        pre.selection is Some,
        delete_selected_spec(pre, post),
    ensures
        post.items@.len() == 0,
        post.selection is None,
{
}

/// Law: deleting the last row of a list of length n > 1 moves the
/// selection to the new last row, index n - 2.
pub proof fn lemma_delete_last_row(pre: AppState, post: AppState, i: usize)
    requires
        pre.inv(),
        pre.items@.len() > 1,
        pre.selection == Some(i),
        i as int == pre.items@.len() - 1,
        delete_selected_spec(pre, post),
    ensures
        post.items@.len() == pre.items@.len() - 1,
        post.selection == Some((i - 1) as usize),
{
}

/// Law: beginning a draft, typing two characters, and submitting it
/// appends exactly one item, not done, whose description is those two
/// characters in order; the earlier items are untouched and the mode
/// is back to browsing.
pub proof fn lemma_compose_round_trip(
    s0: AppState,
    s1: AppState,
    s2: AppState,
    s3: AppState,
    s4: AppState,
    a: char,
    b: char,
)
    requires
        begin_compose_spec(s0, s1),
        append_char_spec(s1, a, s2),
        append_char_spec(s2, b, s3),
        submit_compose_spec(s3, s4),
    ensures
        s4.items@.len() == s0.items@.len() + 1,
        s4.items@.drop_last() == s0.items@,
        s4.items@.last().description@ == seq![a, b],
        s4.items@.last().is_done == false,
        s4.mode == Mode::Browsing,
        s4.descs() == s0.descs().push(seq![a, b]),
{
    assert(s3.buffer@ =~= seq![a, b]);
    assert(s4.descs() =~= s0.descs().push(seq![a, b]));
}

} // verus!
