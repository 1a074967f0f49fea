use editor_core::editor::{App, AppState};
use editor_core::input::{
    emit_action, resolve_command, EditorCommand, Input, InputAction, InputState, Key, Mode,
    Motion, Operator, ResolvedCommand,
};

fn press(state: &mut AppState, keys: &str) -> Vec<Option<ResolvedCommand>> {
    keys.chars().map(|c| Input::handle_keypress(state, Key::Char(c))).collect()
}

fn buffer_text(state: &AppState) -> String {
    state.command_state.buffer.iter().collect()
}

#[test]
fn escape_resets_mode_and_pending_input() {
    for setup in ["", "12d", "i", ":ab", "7y"] {
        let mut state = AppState::new();
        press(&mut state, setup);
        let r = Input::handle_keypress(&mut state, Key::Esc);
        assert_eq!(r, None);
        assert_eq!(state.mode, Mode::Normal);
        assert_eq!(state.input_state.count, 0);
        assert_eq!(state.input_state.operator, None);
    }
}

#[test]
fn escape_clears_command_text() {
    let mut state = AppState::new();
    press(&mut state, ":ab");
    Input::handle_keypress(&mut state, Key::Left);
    Input::handle_keypress(&mut state, Key::Esc);
    assert_eq!(state.mode, Mode::Normal);
    assert_eq!(buffer_text(&state), "");
    assert_eq!(state.command_state.cursor, 0);
}

#[test]
fn digits_accumulate_into_a_move() {
    let mut state = AppState::new();
    press(&mut state, "12");
    assert_eq!(state.input_state.count, 12);
    let mut input = state.input_state;
    assert_eq!(
        emit_action(&mut input, Motion::Down),
        Some(InputAction::Move { count: 12, motion: Motion::Down })
    );
    let r = Input::handle_keypress(&mut state, Key::Char('j'));
    assert_eq!(r, None);
    assert_eq!(state.input_state, InputState::new());
}

#[test]
fn count_saturates_at_the_largest_value() {
    let mut state = AppState::new();
    state.input_state.count = usize::MAX / 10;
    press(&mut state, "9");
    assert_eq!(state.input_state.count, usize::MAX);
    press(&mut state, "0");
    assert_eq!(state.input_state.count, usize::MAX);
}

#[test]
fn pending_operator_is_used_once() {
    let mut state = AppState::new();
    let mut input = InputState { count: 3, operator: Some(Operator::Delete) };
    assert_eq!(
        emit_action(&mut input, Motion::Down),
        Some(InputAction::Operation { count: 3, operator: Operator::Delete, motion: Motion::Down })
    );
    assert_eq!(input, InputState::new());

    let r = press(&mut state, "3dj");
    assert_eq!(
        r[2],
        Some(ResolvedCommand::Editor(EditorCommand::Delete { count: 3, motion: Motion::Down }))
    );
    assert_eq!(state.input_state, InputState::new());
    let mut input = state.input_state;
    assert_eq!(
        emit_action(&mut input, Motion::Down),
        Some(InputAction::Move { count: 1, motion: Motion::Down })
    );
    assert_eq!(Input::handle_keypress(&mut state, Key::Char('j')), None);
}

#[test]
fn operators_resolve_by_kind() {
    let mut state = AppState::new();
    assert_eq!(
        press(&mut state, "yk")[1],
        Some(ResolvedCommand::Editor(EditorCommand::Yank { count: 1, motion: Motion::Up }))
    );
    assert_eq!(
        press(&mut state, "2ml")[2],
        Some(ResolvedCommand::Editor(EditorCommand::Mute { count: 2, motion: Motion::Right }))
    );
    assert_eq!(press(&mut state, "sh")[1], None);
    assert_eq!(state.input_state, InputState::new());
    assert_eq!(press(&mut state, "4u")[1], None);
    assert_eq!(state.input_state, InputState::new());
}

#[test]
fn undo_emits_at_once() {
    let mut input = InputState { count: 2, operator: Some(Operator::Undo) };
    assert_eq!(
        emit_action(&mut input, Motion::NoMotion),
        Some(InputAction::Operation { count: 2, operator: Operator::Undo, motion: Motion::NoMotion })
    );
    let mut state = AppState::new();
    press(&mut state, "2u");
    assert_eq!(state.input_state, InputState::new());
}

#[test]
fn insert_mode_takes_no_key() {
    let mut state = AppState::new();
    press(&mut state, "i");
    assert_eq!(state.mode, Mode::Insert);
    assert_eq!(press(&mut state, "3dj:"), vec![None, None, None, None]);
    assert_eq!(state.mode, Mode::Insert);
    assert_eq!(state.input_state, InputState::new());
    assert!(state.command_state.buffer.is_empty());
}

#[test]
fn command_mode_round_trip_quits() {
    let mut state = AppState::new();
    assert_eq!(App::process_key(&mut state, Key::Char(':')), None);
    assert_eq!(state.mode, Mode::Command);
    assert_eq!(App::process_key(&mut state, Key::Char('q')), None);
    let r = App::process_key(&mut state, Key::Enter);
    assert_eq!(r, Some(ResolvedCommand::Editor(EditorCommand::Quit)));
    assert!(!state.running);
    assert_eq!(state.mode, Mode::Normal);
    assert!(state.command_state.buffer.is_empty());
    assert_eq!(state.command_state.cursor, 0);
}

#[test]
fn semicolon_also_opens_command_mode() {
    let mut state = AppState::new();
    press(&mut state, "5;");
    assert_eq!(state.mode, Mode::Command);
    assert_eq!(state.input_state, InputState::new());
}

#[test]
fn command_buffer_is_edited_key_by_key() {
    let mut state = AppState::new();
    press(&mut state, ":quti");
    assert_eq!(buffer_text(&state), "quti");
    assert_eq!(state.command_state.cursor, 4);
    Input::handle_keypress(&mut state, Key::Left);
    assert_eq!(state.command_state.cursor, 3);
    Input::handle_keypress(&mut state, Key::Backspace);
    assert_eq!(buffer_text(&state), "qui");
    assert_eq!(state.command_state.cursor, 2);
    Input::handle_keypress(&mut state, Key::Right);
    assert_eq!(state.command_state.cursor, 3);
    press(&mut state, "t");
    assert_eq!(buffer_text(&state), "quit");
    assert_eq!(state.command_state.cursor, 4);
    let r = Input::handle_keypress(&mut state, Key::Enter);
    assert_eq!(r, Some(ResolvedCommand::Editor(EditorCommand::Quit)));
}

#[test]
fn cursor_moves_are_clamped() {
    let mut state = AppState::new();
    press(&mut state, ":ab");
    Input::handle_keypress(&mut state, Key::Right);
    assert_eq!(state.command_state.cursor, 2);
    for _ in 0..3 {
        Input::handle_keypress(&mut state, Key::Left);
    }
    assert_eq!(state.command_state.cursor, 0);
    Input::handle_keypress(&mut state, Key::Backspace);
    assert_eq!(buffer_text(&state), "ab");
    assert_eq!(state.mode, Mode::Command);
    Input::handle_keypress(&mut state, Key::Delete);
    assert_eq!(buffer_text(&state), "b");
    assert_eq!(state.command_state.cursor, 0);
    Input::handle_keypress(&mut state, Key::Right);
    Input::handle_keypress(&mut state, Key::Delete);
    assert_eq!(buffer_text(&state), "b");
}

#[test]
fn backspace_on_empty_command_leaves_command_mode() {
    let mut state = AppState::new();
    press(&mut state, ":");
    assert_eq!(Input::handle_keypress(&mut state, Key::Backspace), None);
    assert_eq!(state.mode, Mode::Normal);
}

#[test]
fn unknown_command_text_does_nothing() {
    let mut state = AppState::new();
    press(&mut state, ":wq");
    let r = App::process_key(&mut state, Key::Enter);
    assert_eq!(r, None);
    assert!(state.running);
    assert_eq!(state.mode, Mode::Normal);
}

#[test]
fn command_text_matches_exactly() {
    let quit = Some(ResolvedCommand::Editor(EditorCommand::Quit));
    assert_eq!(resolve_command(String::from("q")), quit);
    assert_eq!(resolve_command(String::from("quit")), quit);
    assert_eq!(resolve_command(String::from("qu")), None);
    assert_eq!(resolve_command(String::from("quit ")), None);
    assert_eq!(resolve_command(String::from("Q")), None);
    assert_eq!(resolve_command(String::new()), None);
}

#[test]
fn pending_input_is_displayed() {
    assert_eq!(InputState::new().display(), "");
    assert_eq!(InputState { count: 12, operator: None }.display(), "12");
    assert_eq!(InputState { count: 305, operator: Some(Operator::Delete) }.display(), "305d");
    assert_eq!(InputState { count: 0, operator: Some(Operator::Yank) }.display(), "y");
    assert_eq!(InputState { count: 0, operator: Some(Operator::Redo) }.display(), "?");
    assert_eq!(
        InputState { count: usize::MAX, operator: None }.display(),
        usize::MAX.to_string()
    );
}

#[test]
fn modes_have_names() {
    assert_eq!(Mode::Normal.name(), "Normal");
    assert_eq!(Mode::Insert.name(), "Insert");
    assert_eq!(Mode::Command.name(), "Command");
}
