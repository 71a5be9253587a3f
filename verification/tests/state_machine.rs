use todo_list::AppState;
use todo_list::Key;
use todo_list::Mode;
use todo_list::Screen;
use todo_list::TodoItem;
use todo_list::render;
use todo_list::step;

fn item(done: bool, text: &str) -> TodoItem {
    TodoItem { is_done: done, description: String::from(text) }
}

fn press(s: &mut AppState, keys: &[Key]) -> bool {
    let mut quit = false;
    for k in keys {
        quit = step(s, *k);
    }
    quit
}

fn type_text(s: &mut AppState, text: &str) {
    for c in text.chars() {
        step(s, Key::Char(c));
    }
}

#[test]
fn fresh_state_is_empty_and_browsing() {
    let s = AppState::new();
    assert!(s.items.is_empty());
    assert_eq!(s.selection, None);
    assert_eq!(s.mode, Mode::Browsing);
    assert_eq!(s.buffer.as_str(), "");
    let d = AppState::default();
    assert!(d.items.is_empty());
    assert_eq!(d.selection, None);
}

#[test]
fn navigation_clamps_at_both_ends() {
    let mut s = AppState::new();
    s.items.push(item(false, "one"));
    s.items.push(item(false, "two"));
    s.items.push(item(false, "three"));
    // Down from nothing lands on the first row, then clamps at the last.
    press(&mut s, &[Key::Char('j')]);
    assert_eq!(s.selection, Some(0));
    press(&mut s, &[Key::Char('j'), Key::Char('j'), Key::Char('j'), Key::Char('j')]);
    assert_eq!(s.selection, Some(2));
    // Up clamps at the first row.
    press(&mut s, &[Key::Char('k'), Key::Char('k'), Key::Char('k'), Key::Char('k')]);
    assert_eq!(s.selection, Some(0));
}

#[test]
fn navigation_up_from_nothing_selects_last() {
    let mut s = AppState::new();
    s.items.push(item(false, "one"));
    s.items.push(item(false, "two"));
    press(&mut s, &[Key::Char('k')]);
    assert_eq!(s.selection, Some(1));
}

#[test]
fn navigation_on_empty_list_selects_nothing() {
    let mut s = AppState::new();
    press(&mut s, &[Key::Char('j'), Key::Char('k')]);
    assert_eq!(s.selection, None);
}

#[test]
fn delete_only_item_empties_list_and_selection() {
    let mut s = AppState::new();
    s.items.push(item(false, "only"));
    s.selection = Some(0);
    press(&mut s, &[Key::Char('D')]);
    assert!(s.items.is_empty());
    assert_eq!(s.selection, None);
}

#[test]
fn delete_last_row_moves_selection_to_new_last() {
    let mut s = AppState::new();
    s.items.push(item(false, "one"));
    s.items.push(item(false, "two"));
    s.items.push(item(false, "three"));
    s.selection = Some(2);
    press(&mut s, &[Key::Char('D')]);
    assert_eq!(s.items.len(), 2);
    assert_eq!(s.selection, Some(1));
}

#[test]
fn delete_middle_row_keeps_selection_index() {
    let mut s = AppState::new();
    s.items.push(item(false, "one"));
    s.items.push(item(false, "two"));
    s.items.push(item(false, "three"));
    s.selection = Some(1);
    press(&mut s, &[Key::Char('D')]);
    assert_eq!(s.items.len(), 2);
    assert_eq!(s.selection, Some(1));
    assert_eq!(s.items[1].description.as_str(), "three");
}

#[test]
fn delete_without_selection_changes_nothing() {
    let mut s = AppState::new();
    s.items.push(item(true, "kept"));
    press(&mut s, &[Key::Char('D')]);
    assert_eq!(s.items.len(), 1);
    assert_eq!(s.items[0].description.as_str(), "kept");
    assert_eq!(s.selection, None);
}

#[test]
fn submit_appends_one_undone_item_and_returns_to_browsing() {
    let mut s = AppState::new();
    s.items.push(item(true, "old"));
    press(&mut s, &[Key::Char('A')]);
    assert_eq!(s.mode, Mode::Composing);
    type_text(&mut s, "new entry");
    press(&mut s, &[Key::Enter]);
    assert_eq!(s.items.len(), 2);
    assert_eq!(s.items[1].description.as_str(), "new entry");
    assert!(!s.items[1].is_done);
    assert_eq!(s.mode, Mode::Browsing);
    assert_eq!(s.buffer.as_str(), "");
}

#[test]
fn submit_with_empty_buffer_appends_empty_item() {
    let mut s = AppState::new();
    press(&mut s, &[Key::Char('A'), Key::Enter]);
    assert_eq!(s.items.len(), 1);
    assert_eq!(s.items[0].description.as_str(), "");
    assert!(!s.items[0].is_done);
    assert_eq!(s.mode, Mode::Browsing);
}

#[test]
fn cancel_never_mutates_items() {
    let mut s = AppState::new();
    s.items.push(item(true, "a"));
    s.items.push(item(false, "b"));
    press(&mut s, &[Key::Char('A')]);
    type_text(&mut s, "draft");
    press(&mut s, &[Key::Esc]);
    assert_eq!(s.items.len(), 2);
    assert_eq!(s.items[0].description.as_str(), "a");
    assert!(s.items[0].is_done);
    assert_eq!(s.items[1].description.as_str(), "b");
    assert!(!s.items[1].is_done);
    assert_eq!(s.mode, Mode::Browsing);
    assert_eq!(s.buffer.as_str(), "");
}

#[test]
fn compose_round_trip_gains_one_entry_ab() {
    let mut s = AppState::new();
    s.begin_compose();
    s.append_char('a');
    s.append_char('b');
    s.submit_compose();
    assert_eq!(s.items.len(), 1);
    assert_eq!(s.items[0].description.as_str(), "ab");
    assert!(!s.items[0].is_done);
}

#[test]
fn backspace_removes_last_character() {
    let mut s = AppState::new();
    press(&mut s, &[Key::Char('A')]);
    type_text(&mut s, "ab");
    press(&mut s, &[Key::Backspace]);
    assert_eq!(s.buffer.as_str(), "a");
    press(&mut s, &[Key::Enter]);
    assert_eq!(s.items[0].description.as_str(), "a");
}

#[test]
fn backspace_on_empty_buffer_is_a_no_op() {
    let mut s = AppState::new();
    press(&mut s, &[Key::Char('A'), Key::Backspace]);
    assert_eq!(s.buffer.as_str(), "");
    assert_eq!(s.mode, Mode::Composing);
}

#[test]
fn escape_quits_while_browsing_and_other_keys_do_not() {
    let mut s = AppState::new();
    assert!(!step(&mut s, Key::Char('z')));
    assert!(!step(&mut s, Key::Other));
    assert!(!step(&mut s, Key::Enter));
    assert!(step(&mut s, Key::Esc));
}

#[test]
fn composing_never_quits() {
    let mut s = AppState::new();
    press(&mut s, &[Key::Char('A')]);
    assert!(!step(&mut s, Key::Char('q')));
    assert!(!step(&mut s, Key::Esc));
    assert_eq!(s.mode, Mode::Browsing);
}

#[test]
fn scenario_two_items_navigate_and_delete() {
    let mut s = AppState::new();
    s.items.push(item(true, "Hello"));
    s.items.push(item(false, "jediowajer"));
    press(&mut s, &[Key::Char('j')]);
    assert_eq!(s.selection, Some(0));
    press(&mut s, &[Key::Char('j')]);
    assert_eq!(s.selection, Some(1));
    press(&mut s, &[Key::Char('j')]);
    assert_eq!(s.selection, Some(1));
    press(&mut s, &[Key::Char('D')]);
    assert_eq!(s.items.len(), 1);
    assert_eq!(s.items[0].description.as_str(), "Hello");
    assert_eq!(s.selection, Some(0));
}

#[test]
fn scenario_add_buy_milk_to_empty_list() {
    let mut s = AppState::new();
    press(&mut s, &[Key::Char('A')]);
    type_text(&mut s, "Buy milk");
    press(&mut s, &[Key::Enter]);
    assert_eq!(s.items.len(), 1);
    assert_eq!(s.items[0].description.as_str(), "Buy milk");
    assert_eq!(s.mode, Mode::Browsing);
}

#[test]
fn scenario_escape_discards_draft() {
    let mut s = AppState::new();
    s.items.push(item(false, "kept"));
    press(&mut s, &[Key::Char('A')]);
    type_text(&mut s, "x");
    press(&mut s, &[Key::Esc]);
    assert_eq!(s.items.len(), 1);
    assert_eq!(s.items[0].description.as_str(), "kept");
    assert_eq!(s.mode, Mode::Browsing);
    assert_eq!(s.buffer.as_str(), "");
}

#[test]
fn render_browsing_lists_descriptions_with_highlight() {
    let mut s = AppState::new();
    s.items.push(item(true, "first"));
    s.items.push(item(false, "second"));
    s.selection = Some(1);
    match render(&s) {
        Screen::Browse { lines, highlighted } => {
            assert_eq!(lines.len(), 2);
            assert_eq!(lines[0].as_str(), "first");
            assert_eq!(lines[1].as_str(), "second");
            assert_eq!(highlighted, Some(1));
        },
        Screen::Compose { .. } => panic!("browsing must render the list"),
    }
}

#[test]
fn render_composing_shows_the_buffer() {
    let mut s = AppState::new();
    press(&mut s, &[Key::Char('A')]);
    type_text(&mut s, "draft");
    match render(&s) {
        Screen::Compose { text } => assert_eq!(text.as_str(), "draft"),
        Screen::Browse { .. } => panic!("composing must render the prompt"),
    }
}

#[test]
fn well_formed_check_sees_a_dangling_selection() {
    let mut s = AppState::new();
    assert!(s.is_well_formed());
    s.items.push(item(false, "one"));
    s.selection = Some(0);
    assert!(s.is_well_formed());
    s.selection = Some(3);
    assert!(!s.is_well_formed());
}
