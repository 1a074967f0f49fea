use editor_core::editor::AppState;
use editor_core::input::{Input, Key, Operator};
use editor_core::layout::{Area, Direction};
use editor_core::widgets::buttonlist::{Button, ButtonListState};
use editor_core::widgets::commandline::CommandLine;
use editor_core::widgets::pianoroll::{PianoRollState, Pos2};
use editor_core::widgets::splitselect::SplitSelect;
use editor_core::widgets::theme::UIStyle;

fn buttons(n: usize) -> Vec<Button> {
    (0..n).map(|i| Button { label: format!("b{}", i), height: 1 }).collect()
}

#[test]
fn button_cursor_moves_within_the_list() {
    let mut s = ButtonListState::new(buttons(3));
    assert_eq!(s.hovered_index(), None);
    s.next_button();
    assert_eq!(s.hovered_index(), Some(0));
    s.next_button();
    s.next_button();
    s.next_button();
    assert_eq!(s.hovered_index(), Some(2));
    s.previous_button();
    assert_eq!(s.hovered_index(), Some(1));
    s.first_button();
    assert_eq!(s.hovered_index(), Some(0));
    s.previous_button();
    assert_eq!(s.hovered_index(), Some(0));
    s.last_button();
    assert_eq!(s.hovered_index(), Some(2));
    s.no_button();
    assert_eq!(s.hovered_index(), None);
    s.previous_button();
    assert_eq!(s.hovered_index(), Some(0));
}

#[test]
fn button_jumps_are_clamped() {
    let mut s = ButtonListState::new(buttons(5));
    s.jump_buttons(3);
    assert_eq!(s.hovered_index(), Some(0));
    s.jump_buttons(3);
    assert_eq!(s.hovered_index(), Some(3));
    s.jump_buttons(10);
    assert_eq!(s.hovered_index(), Some(4));
    s.jump_buttons(-2);
    assert_eq!(s.hovered_index(), Some(2));
    s.jump_buttons(i32::MIN);
    assert_eq!(s.hovered_index(), Some(0));
    s.hovered(Some(usize::MAX));
    s.jump_buttons(i32::MAX);
    assert_eq!(s.hovered_index(), Some(4));
}

#[test]
fn empty_button_list_has_no_cursor() {
    let mut s = ButtonListState::new(Vec::new());
    s.hovered(Some(3));
    s.next_button();
    assert_eq!(s.hovered_index(), None);
    s.hovered(Some(3)).jump_buttons(1);
    assert_eq!(s.hovered_index(), None);
    s.add_button(Button { label: String::from("one"), height: 2 });
    s.last_button();
    assert_eq!(s.hovered_index(), Some(0));
    assert_eq!(s.items().len(), 1);
    assert_eq!(s.items()[0].height, 2);
}

#[test]
fn split_chooser_offers_numbered_choices() {
    let s = SplitSelect::new(Direction::Horizontal);
    assert_eq!(s.direction(), Direction::Horizontal);
    let labels: Vec<&str> = s.list_state().items().iter().map(|b| b.label.as_str()).collect();
    assert_eq!(labels, vec!["Button 0", "Button 1", "Button 2", "Button 3", "Button 4"]);
    assert!(s.list_state().items().iter().all(|b| b.height == 1));
}

#[test]
fn split_chooser_cursor_moves_against_dy() {
    let mut s = SplitSelect::new(Direction::Vertical);
    s.move_cursor(0);
    assert_eq!(s.list_state().hovered_index(), Some(0));
    s.move_cursor(-3);
    assert_eq!(s.list_state().hovered_index(), Some(3));
    s.move_cursor(i32::MIN);
    assert_eq!(s.list_state().hovered_index(), Some(4));
    s.move_cursor(i32::MAX);
    assert_eq!(s.list_state().hovered_index(), Some(0));
}

#[test]
fn piano_roll_starts_empty() {
    let p = PianoRollState::new(7);
    assert_eq!(p.id(), 7);
    assert_eq!(p.selected(), Pos2 { x: 2, y: 2 });
}

#[test]
fn centered_rect_takes_a_share_of_the_area() {
    let r = UIStyle::centered_rect(50, 50, Area { x: 10, y: 4, width: 81, height: 21 });
    assert_eq!(r, Area { x: 30, y: 9, width: 40, height: 10 });
    let r = UIStyle::centered_rect(100, 0, Area { x: 0, y: 0, width: 1000, height: 7 });
    assert_eq!(r, Area { x: 0, y: 3, width: 1000, height: 0 });
}

#[test]
fn status_line_shows_mode_and_pending_input() {
    let mut state = AppState::new();
    assert_eq!(CommandLine::get_mode(&state), "-- NORMAL --");
    state.input_state.count = 3;
    state.input_state.operator = Some(Operator::Delete);
    assert_eq!(
        CommandLine::normal_line(&state, 20),
        (String::from("-- NORMAL --"), 6, String::from("3d"))
    );
    assert_eq!(CommandLine::normal_line(&state, 5).1, 0);
    Input::handle_keypress(&mut state, Key::Char('i'));
    assert_eq!(CommandLine::get_mode(&state), "-- INSERT --");
    Input::handle_keypress(&mut state, Key::Esc);
    Input::handle_keypress(&mut state, Key::Char(':'));
    assert_eq!(CommandLine::get_mode(&state), "-- COMMAND --");
}

#[test]
fn command_line_splits_at_the_cursor() {
    let mut state = AppState::new();
    for c in ":abc".chars() {
        Input::handle_keypress(&mut state, Key::Char(c));
    }
    assert_eq!(
        CommandLine::command_line(&state),
        (String::from("abc"), ' ', String::new())
    );
    Input::handle_keypress(&mut state, Key::Left);
    Input::handle_keypress(&mut state, Key::Left);
    assert_eq!(
        CommandLine::command_line(&state),
        (String::from("a"), 'b', String::from("c"))
    );
    state.command_state.cursor = 9;
    assert_eq!(
        CommandLine::command_line(&state),
        (String::from("abc"), ' ', String::new())
    );
}
