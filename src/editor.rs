use vstd::prelude::*;

use crate::input::{
    key_step, resolve, Resolver, CommandState, EditorCommand, Input, InputState, Key, LocalCommand, Mode,
    ResolvedCommand,
};
use crate::layout::Direction;
use crate::widgets::pianoroll::PianoRollState;
use crate::widgets::splitselect::SplitSelect;
use crate::window::{ManagerView, Window, WindowManager};

verus! {

/// The kinds of window that the editor opens.
#[derive(Clone, Debug)]
pub enum EditorWindow {
    PianoRoll(PianoRollState),
    SplitSelect(SplitSelect),
}

impl Window for EditorWindow {
    /// The window handles the command as its kind does, and keeps its kind.
    open spec fn handled(&self, cmd: LocalCommand, next: Self) -> bool {
        match (self, next) {
            (EditorWindow::PianoRoll(a), EditorWindow::PianoRoll(b)) => a.handled(cmd, b),
            (EditorWindow::SplitSelect(a), EditorWindow::SplitSelect(b)) => a.handled(cmd, b),
            _ => false,
        }
    }

    fn handle_input(&mut self, cmd: LocalCommand) {
        match self {
            EditorWindow::PianoRoll(w) => w.handle_input(cmd),
            EditorWindow::SplitSelect(w) => w.handle_input(cmd),
        }
    }
}

/// Everything the editor keeps between two key events.
pub struct AppState {
    pub running: bool,
    pub mode: Mode,
    pub input_state: InputState,
    pub command_state: CommandState,
    pub windows: WindowManager<EditorWindow>,
}

impl AppState {
    pub open spec fn wf(&self) -> bool {
        self.command_state.wf() && self.windows@.wf()
    }

    /// A running editor in normal mode with nothing pending, showing one
    /// piano roll.
    pub fn new() -> (r: Self)
        ensures
            r.wf(),
            r.running,
            r.mode == Mode::Normal,
            r.input_state.is_clear(),
            r.command_state.is_clear(),
            r.windows@.layout_tree == crate::layout::LayoutNode::Window(0),
            r.windows@.focused == Some(0usize),
            r.windows@.popup_stack.len() == 0,
            r.windows@.last_window_id == 0,
    {
        Self {
            running: true,
            mode: Mode::Normal,
            input_state: InputState::new(),
            command_state: CommandState::new(),
            windows: WindowManager::new(EditorWindow::PianoRoll(PianoRollState::new(0))),
        }
    }
}

/// `post` is `pre` with a split chooser for `direction` opened as a popup
/// under the next id; with no id left, nothing changed.
pub open spec fn opened_chooser(
    pre: ManagerView<EditorWindow>,
    post: ManagerView<EditorWindow>,
    direction: Direction,
) -> bool {
    if pre.has_free_id() {
        &&& post == (ManagerView {
            windows: post.windows,
            last_window_id: pre.next_id(),
            popup_stack: pre.popup_stack.push(pre.next_id()),
            ..pre
        })
        &&& post.windows.remove(pre.next_id()) == pre.windows
        &&& post.windows.contains_key(pre.next_id())
        &&& post.windows[pre.next_id()] matches EditorWindow::SplitSelect(s)
        &&& s.spec_direction() == direction
    } else {
        post == pre
    }
}

/// `post` is the editor after `command` was carried out on an editor whose
/// key resolution stood at `resolver`, whose running flag was `running` and
/// whose windows were `windows`: quit stops the editor, a split opens a
/// chooser, a local command goes to the window that receives input, the
/// other editor commands change nothing yet.
pub open spec fn dispatched(
    resolver: Resolver,
    running: bool,
    windows: ManagerView<EditorWindow>,
    post: &AppState,
    command: ResolvedCommand,
) -> bool {
    &&& post.resolver() == resolver
    &&& match command {
        ResolvedCommand::Editor(EditorCommand::Quit) => !post.running && post.windows@ == windows,
        ResolvedCommand::Editor(EditorCommand::Split { direction }) => post.running == running
            && opened_chooser(windows, post.windows@, direction),
        ResolvedCommand::Editor(_) => post.running == running && post.windows@ == windows,
        ResolvedCommand::Local(cmd) => post.running == running && windows.routed_input(post.windows@, cmd),
    }
}

/// The editor's handling of events.
pub struct App;

impl App {
    /// Carries out a resolved command.
    pub fn dispatch_command(state: &mut AppState, command: ResolvedCommand)
        requires
            old(state).wf(),
        ensures
            final(state).wf(),
            dispatched(
                old(state).resolver(),
                old(state).running,
                old(state).windows@,
                final(state),
                command,
            ),
    {
        match command {
            ResolvedCommand::Editor(cmd) => App::execute_editor_command(state, cmd),
            ResolvedCommand::Local(cmd) => state.windows.handle_input(cmd),
        }
    }

    fn execute_editor_command(state: &mut AppState, command: EditorCommand)
        requires
            old(state).wf(),
        ensures
            final(state).wf(),
            dispatched(
                old(state).resolver(),
                old(state).running,
                old(state).windows@,
                final(state),
                ResolvedCommand::Editor(command),
            ),
    {
        match command {
            EditorCommand::Quit => {
                state.running = false;
            },
            EditorCommand::Split { direction } => {
                if state.windows.has_free_id() {
                    let ghost pre = state.windows@;
                    state.windows.push_popup(EditorWindow::SplitSelect(SplitSelect::new(direction)));
                    proof {
                        assert(state.windows@.windows.remove(pre.next_id()) =~= pre.windows);
                    }
                }
            },
            _ => {},
        }
    }

    /// Handles one key event: Escape first closes the top popup, if one is
    /// open; then the key goes to the resolver, and the command it
    /// completes, if any, is carried out and returned.
    pub fn process_key(state: &mut AppState, key: Key) -> (r: Option<ResolvedCommand>)
        requires
            old(state).wf(),
        ensures
            final(state).wf(),
            r == resolve(key_step(old(state).resolver(), key).1),
            key == Key::Esc ==> {
                &&& r.is_none()
                &&& final(state).mode == Mode::Normal
                &&& final(state).input_state.is_clear()
                &&& final(state).command_state.is_clear()
                &&& final(state).resolver() == key_step(old(state).resolver(), key).0
                &&& final(state).running == old(state).running
                &&& if old(state).windows@.popup_stack.len() > 0 {
                    final(state).windows@ == old(state).windows@.without_top_popup()
                } else {
                    final(state).windows == old(state).windows
                }
            },
            key != Key::Esc ==> match r {
                None => final(state).resolver() == key_step(old(state).resolver(), key).0
                    && final(state).running == old(state).running && final(state).windows
                    == old(state).windows,
                Some(command) => dispatched(
                    key_step(old(state).resolver(), key).0,
                    old(state).running,
                    old(state).windows@,
                    final(state),
                    command,
                ),
            },
    {
        if key == Key::Esc && state.windows.is_popup_active() {
            state.windows.pop_popup();
        }
        let r = Input::handle_keypress(state, key);
        if let Some(command) = r {
            App::dispatch_command(state, command);
        }
        r
    }
}

} // verus!
