use editor_core::editor::{App, AppState, EditorWindow};
use editor_core::input::{EditorCommand, Key, LocalCommand, ResolvedCommand};
use editor_core::layout::{split_by_ratio, Area, Direction, LayoutNode, Placement, Ratio};
use editor_core::widgets::pianoroll::{PianoRollState, Pos2};
use editor_core::window::WindowManager;

fn roll(id: usize) -> EditorWindow {
    EditorWindow::PianoRoll(PianoRollState::new(id))
}

fn area(width: u16, height: u16) -> Area {
    Area { x: 0, y: 0, width, height }
}

#[test]
fn new_manager_shows_one_focused_window() {
    let wm = WindowManager::new(roll(0));
    assert_eq!(wm.focused(), Some(0));
    assert_eq!(wm.layout_tree(), &LayoutNode::Window(0));
    assert!(wm.contains_window(0));
    assert!(!wm.is_popup_active());
    assert!(wm.has_free_id());
}

#[test]
fn split_replaces_focused_leaf() {
    let mut wm = WindowManager::new(roll(0));
    assert!(wm.split_current_window(Direction::Horizontal, roll(1)));
    assert_eq!(
        wm.layout_tree(),
        &LayoutNode::Split {
            direction: Direction::Horizontal,
            ratio: Ratio { num: 1, den: 2 },
            first: Box::new(LayoutNode::Window(0)),
            second: Box::new(LayoutNode::Window(1)),
        }
    );
    assert_eq!(wm.focused(), Some(1));
    assert!(wm.contains_window(1));
}

#[test]
fn second_split_nests_inside_the_focused_half() {
    let mut wm = WindowManager::new(roll(0));
    assert!(wm.split_current_window(Direction::Horizontal, roll(1)));
    assert!(wm.split_current_window(Direction::Vertical, roll(2)));
    assert_eq!(
        wm.layout_tree(),
        &LayoutNode::Split {
            direction: Direction::Horizontal,
            ratio: Ratio { num: 1, den: 2 },
            first: Box::new(LayoutNode::Window(0)),
            second: Box::new(LayoutNode::Split {
                direction: Direction::Vertical,
                ratio: Ratio { num: 1, den: 2 },
                first: Box::new(LayoutNode::Window(1)),
                second: Box::new(LayoutNode::Window(2)),
            }),
        }
    );
    assert_eq!(wm.focused(), Some(2));
    wm.set_focuesed(0);
    assert_eq!(wm.focused(), Some(0));
}

#[test]
fn popups_close_last_first() {
    let mut state = AppState::new();
    state.windows.push_popup(roll(1));
    state.windows.push_popup(roll(2));
    assert!(state.windows.is_popup_active());
    assert_eq!(state.windows.popup_stack(), &vec![1, 2]);

    App::process_key(&mut state, Key::Esc);
    assert!(!state.windows.contains_window(2));
    assert!(state.windows.contains_window(1));
    assert_eq!(state.windows.popup_stack(), &vec![1]);

    App::process_key(&mut state, Key::Esc);
    assert!(!state.windows.contains_window(1));
    assert!(!state.windows.is_popup_active());

    state.input_state.count = 4;
    App::process_key(&mut state, Key::Esc);
    assert!(!state.windows.is_popup_active());
    assert!(state.windows.contains_window(0));
    assert_eq!(state.input_state.count, 0);
}

#[test]
fn pop_without_popup_returns_none() {
    let mut wm = WindowManager::new(roll(0));
    assert_eq!(wm.pop_popup(), None);
    wm.push_popup(roll(1));
    assert_eq!(wm.pop_popup(), Some(1));
    assert_eq!(wm.pop_popup(), None);
    wm.push_popup(roll(2));
    assert_eq!(wm.popup_stack(), &vec![2]);
    assert!(!wm.contains_window(1));
}

#[test]
fn even_split_gives_two_halves() {
    let (a, b) = split_by_ratio(Direction::Horizontal, Ratio::half(), area(100, 10));
    assert_eq!(a, Area { x: 0, y: 0, width: 50, height: 10 });
    assert_eq!(b, Area { x: 50, y: 0, width: 50, height: 10 });
    let (a, b) = split_by_ratio(Direction::Vertical, Ratio::half(), area(10, 40));
    assert_eq!(a, Area { x: 0, y: 0, width: 10, height: 20 });
    assert_eq!(b, Area { x: 0, y: 20, width: 10, height: 20 });
}

#[test]
fn split_percentages_are_rounded_down() {
    let third = Ratio { num: 1, den: 3 };
    assert_eq!(third.first_percent(), 33);
    assert_eq!(third.second_percent(), 66);
    let (a, b) = split_by_ratio(Direction::Horizontal, third, area(100, 1));
    assert_eq!(a.width, 33);
    assert_eq!(b.width, 66);
    assert!(a.width + b.width < 100);

    let r = Ratio { num: 33, den: 100 };
    assert_eq!(r.first_percent(), 33);
    assert_eq!(r.second_percent(), 67);
    let half = Ratio::half();
    assert_eq!(half.first_percent() + half.second_percent(), 100);
}

#[test]
fn render_places_leaves_then_popup() {
    let mut wm = WindowManager::new(roll(0));
    let whole = area(100, 10);
    assert_eq!(wm.render_layout(whole), vec![Placement { id: 0, area: whole, focused: true }]);

    wm.split_current_window(Direction::Horizontal, roll(1));
    let left = Area { x: 0, y: 0, width: 50, height: 10 };
    let right = Area { x: 50, y: 0, width: 50, height: 10 };
    assert_eq!(
        wm.render_layout(whole),
        vec![
            Placement { id: 0, area: left, focused: false },
            Placement { id: 1, area: right, focused: true },
        ]
    );

    wm.push_popup(roll(2));
    assert_eq!(
        wm.render_layout(whole),
        vec![
            Placement { id: 0, area: left, focused: false },
            Placement { id: 1, area: right, focused: false },
            Placement { id: 2, area: whole, focused: true },
        ]
    );
}

#[test]
fn local_commands_go_to_the_top_popup() {
    let mut state = AppState::new();
    App::dispatch_command(
        &mut state,
        ResolvedCommand::Editor(EditorCommand::Split { direction: Direction::Vertical }),
    );
    assert_eq!(state.windows.popup_stack(), &vec![1]);
    let chooser = |state: &AppState| match state.windows.window(1) {
        Some(EditorWindow::SplitSelect(s)) => s.clone(),
        _ => panic!("no chooser"),
    };
    assert_eq!(chooser(&state).direction(), Direction::Vertical);
    assert_eq!(chooser(&state).list_state().hovered_index(), None);

    let down = ResolvedCommand::Local(LocalCommand::MoveLocalCursor { dx: 0, dy: -1 });
    App::dispatch_command(&mut state, down);
    assert_eq!(chooser(&state).list_state().hovered_index(), Some(0));
    App::dispatch_command(&mut state, down);
    assert_eq!(chooser(&state).list_state().hovered_index(), Some(1));
    let up = ResolvedCommand::Local(LocalCommand::MoveLocalCursor { dx: 0, dy: 3 });
    App::dispatch_command(&mut state, up);
    assert_eq!(chooser(&state).list_state().hovered_index(), Some(0));

    match state.windows.window(0) {
        Some(EditorWindow::PianoRoll(p)) => assert_eq!(p.selected(), Pos2 { x: 2, y: 2 }),
        _ => panic!("no piano roll"),
    }
}

#[test]
fn placeholder_commands_change_nothing() {
    let mut state = AppState::new();
    App::dispatch_command(&mut state, ResolvedCommand::Editor(EditorCommand::Bpm { bpm: 120 }));
    App::dispatch_command(
        &mut state,
        ResolvedCommand::Editor(EditorCommand::Delete {
            count: 1,
            motion: editor_core::input::Motion::Left,
        }),
    );
    assert!(state.running);
    assert!(!state.windows.is_popup_active());
    assert_eq!(state.windows.layout_tree(), &LayoutNode::Window(0));
}
