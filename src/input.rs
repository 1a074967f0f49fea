use vstd::prelude::*;

use crate::editor::AppState;
use crate::layout::Direction;
use crate::text::{decimal, push_decimal, string_from_chars};

verus! {

/// Top-level mode of the key resolver.
#[derive(Clone, Copy, Debug, PartialEq, Eq, Structural)]
pub enum Mode {
    Normal,
    Insert,
    Command,
}

impl Mode {
    pub open spec fn spec_name(self) -> Seq<char> {
        match self {
            Mode::Normal => seq!['N', 'o', 'r', 'm', 'a', 'l'],
            Mode::Insert => seq!['I', 'n', 's', 'e', 'r', 't'],
            Mode::Command => seq!['C', 'o', 'm', 'm', 'a', 'n', 'd'],
        }
    }

    /// The mode's name as shown to the user.
    pub fn name(&self) -> (r: &'static str)
        ensures
            r@ == self.spec_name(),
    {
        proof {
            reveal_strlit("Normal");
            reveal_strlit("Insert");
            reveal_strlit("Command");
        }
        match self {
            Mode::Normal => "Normal",
            Mode::Insert => "Insert",
            Mode::Command => "Command",
        }
    }
}

/// A key event, as far as the resolver tells keys apart.
#[derive(Clone, Copy, Debug, PartialEq, Eq, Structural)]
pub enum Key {
    Char(char),
    Enter,
    Esc,
    Backspace,
    Delete,
    Left,
    Right,
    Other,
}

/// Where an operation or a cursor move goes.
#[derive(Clone, Copy, Debug, PartialEq, Eq, Structural)]
pub enum Motion {
    NoMotion,
    Left,
    Right,
    Up,
    Down,
    Beat,
    Bar,
    Start,
    End,
}

/// A pending action that waits for a motion.
#[derive(Clone, Copy, Debug, PartialEq, Eq, Structural)]
pub enum Operator {
    Delete,
    Yank,
    Paste,
    Undo,
    Redo,
    Mute,
    Solo,
}

/// What a key sequence amounts to, before it is resolved to a command.
#[derive(Clone, Debug, PartialEq, Eq)]
pub enum InputAction {
    Move { count: usize, motion: Motion },
    Operation { count: usize, operator: Operator, motion: Motion },
    Command(String),
}

/// A command handled by the editor itself.
#[derive(Clone, Copy, Debug, PartialEq, Eq, Structural)]
pub enum EditorCommand {
    Delete { count: usize, motion: Motion },
    Yank { count: usize, motion: Motion },
    Paste { count: usize, motion: Motion },
    Undo { count: usize, motion: Motion },
    Redo { count: usize, motion: Motion },
    Mute { count: usize, motion: Motion },
    Solo { count: usize, motion: Motion },
    Bpm { bpm: u32 },
    Split { direction: Direction },
    Quit,
}

/// A command forwarded to the window that has input focus.
#[derive(Clone, Copy, Debug, PartialEq, Eq, Structural)]
pub enum LocalCommand {
    MoveLocalCursor { dx: i32, dy: i32 },
}

/// The outcome of a key once it is resolved.
#[derive(Clone, Copy, Debug, PartialEq, Eq, Structural)]
pub enum ResolvedCommand {
    Editor(EditorCommand),
    Local(LocalCommand),
}

/// Pending repeat count (0 for none) and pending operator of normal mode.
#[derive(Clone, Copy, Debug, PartialEq, Eq, Structural)]
pub struct InputState {
    pub count: usize,
    pub operator: Option<Operator>,
}

/// The letter that stands for an operator in the status line.
pub open spec fn operator_symbol(op: Operator) -> char {
    match op {
        Operator::Delete => 'd',
        Operator::Yank => 'y',
        Operator::Paste => 'p',
        Operator::Mute => 'm',
        Operator::Solo => 's',
        Operator::Undo => 'u',
        Operator::Redo => '?',
    }
}

impl InputState {
    pub open spec fn is_clear(self) -> bool {
        self.count == 0 && self.operator.is_none()
    }

    /// The pending count and operator as the status line shows them.
    pub open spec fn spec_display(self) -> Seq<char> {
        let digits = if self.count > 0 {
            decimal(self.count as nat)
        } else {
            Seq::empty()
        };
        match self.operator {
            Some(op) => digits.push(operator_symbol(op)),
            None => digits,
        }
    }

    pub fn new() -> (r: Self)
        ensures
            r.is_clear(),
    {
        Self { count: 0, operator: None }
    }

    pub fn clear(&mut self)
        ensures
            final(self).is_clear(),
    {
        self.count = 0;
        self.operator = None;
    }

    pub fn display(&self) -> (r: String)
        ensures
            r@ == self.spec_display(),
    {
        let mut s: Vec<char> = Vec::new();
        if self.count > 0 {
            push_decimal(self.count, &mut s);
        }
        if let Some(op) = self.operator {
            s.push(
                match op {
                    Operator::Delete => 'd',
                    Operator::Yank => 'y',
                    Operator::Paste => 'p',
                    Operator::Mute => 'm',
                    Operator::Solo => 's',
                    Operator::Undo => 'u',
                    _ => '?',
                },
            );
        }
        assert(s@ =~= self.spec_display());
        string_from_chars(&s)
    }
}

/// The text of command mode and the cursor in it, counted in characters.
#[derive(Clone, Debug, PartialEq, Eq, Default)]
pub struct CommandState {
    pub buffer: Vec<char>,
    pub cursor: usize,
}

impl CommandState {
    /// The cursor stands on a character of the buffer or just past its end.
    pub open spec fn wf(&self) -> bool {
        self.cursor <= self.buffer@.len()
    }

    pub open spec fn is_clear(&self) -> bool {
        self.buffer@.len() == 0 && self.cursor == 0
    }

    pub fn new() -> (r: Self)
        ensures
            r.is_clear(),
    {
        CommandState { buffer: Vec::new(), cursor: 0 }
    }

    pub fn clear(&mut self)
        ensures
            final(self).is_clear(),
    {
        self.buffer.clear();
        self.cursor = 0;
    }
}

/// The repeat count that a pending count stands for: none means once.
pub open spec fn effective_count(count: usize) -> usize {
    if count == 0 {
        1
    } else {
        count
    }
}

/// An action as the contracts speak of it: command text as characters.
pub ghost enum ActionView {
    Move { count: usize, motion: Motion },
    Operation { count: usize, operator: Operator, motion: Motion },
    Command(Seq<char>),
}

impl View for InputAction {
    type V = ActionView;

    open spec fn view(&self) -> ActionView {
        match self {
            InputAction::Move { count, motion } => ActionView::Move { count: *count, motion: *motion },
            InputAction::Operation { count, operator, motion } => ActionView::Operation {
                count: *count,
                operator: *operator,
                motion: *motion,
            },
            InputAction::Command(s) => ActionView::Command(s@),
        }
    }
}

/// The view of an optional action.
pub open spec fn action_view(a: Option<InputAction>) -> Option<ActionView> {
    match a {
        Some(a) => Some(a@),
        None => None,
    }
}

/// The action that a motion completes, given the pending count and operator.
pub open spec fn emitted(st: InputState, motion: Motion) -> ActionView {
    match st.operator {
        Some(op) => ActionView::Operation {
            count: effective_count(st.count),
            operator: op,
            motion,
        },
        None => ActionView::Move { count: effective_count(st.count), motion },
    }
}

/// Completes the pending input with a motion: the pending operator is
/// consumed and the state is cleared.
pub fn emit_action(state: &mut InputState, motion: Motion) -> (r: Option<InputAction>)
    ensures
        action_view(r) == Some(emitted(*old(state), motion)),
        final(state).is_clear(),
{
    let count = if state.count == 0 {
        1
    } else {
        state.count
    };
    let action = match state.operator.take() {
        Some(op) => InputAction::Operation { count, operator: op, motion },
        None => InputAction::Move { count, motion },
    };
    state.clear();
    Some(action)
}

/// The part of the editor state that key resolution reads and writes.
pub ghost struct Resolver {
    pub mode: Mode,
    pub input: InputState,
    pub buffer: Seq<char>,
    pub cursor: usize,
}

impl AppState {
    pub open spec fn resolver(&self) -> Resolver {
        Resolver {
            mode: self.mode,
            input: self.input_state,
            buffer: self.command_state.buffer@,
            cursor: self.command_state.cursor,
        }
    }
}

pub open spec fn cleared_input() -> InputState {
    InputState { count: 0, operator: None }
}

pub open spec fn is_digit(c: char) -> bool {
    '0' <= c <= '9'
}

pub open spec fn digit_value(c: char) -> nat {
    (c as nat - '0' as nat) as nat
}

/// `count * 10 + d`, held at `usize::MAX`.
pub open spec fn accumulate(count: usize, d: nat) -> usize {
    if count * 10 + d <= usize::MAX {
        (count * 10 + d) as usize
    } else {
        usize::MAX
    }
}

/// The operator that a key leaves pending in normal mode.
pub open spec fn pending_operator(c: char) -> Option<Operator> {
    if c == 'd' {
        Some(Operator::Delete)
    } else if c == 'y' {
        Some(Operator::Yank)
    } else if c == 'm' {
        Some(Operator::Mute)
    } else if c == 's' {
        Some(Operator::Solo)
    } else {
        None
    }
}

/// The motion that a key stands for in normal mode.
pub open spec fn key_motion(c: char) -> Option<Motion> {
    if c == 'h' {
        Some(Motion::Left)
    } else if c == 'j' {
        Some(Motion::Down)
    } else if c == 'k' {
        Some(Motion::Up)
    } else if c == 'l' {
        Some(Motion::Right)
    } else {
        None
    }
}

/// A key in normal mode: the next state and the action it completes.
pub open spec fn normal_step(r: Resolver, key: Key) -> (Resolver, Option<ActionView>) {
    match key {
        Key::Char(c) => if c == 'i' {
            (Resolver { mode: Mode::Insert, input: cleared_input(), ..r }, None)
        } else if c == ':' || c == ';' {
            (Resolver { mode: Mode::Command, input: cleared_input(), buffer: Seq::empty(), cursor: 0 }, None)
        } else if is_digit(c) {
            (
                Resolver {
                    input: InputState { count: accumulate(r.input.count, digit_value(c)), ..r.input },
                    ..r
                },
                None,
            )
        } else if pending_operator(c).is_some() {
            (Resolver { input: InputState { operator: pending_operator(c), ..r.input }, ..r }, None)
        } else if c == 'u' {
            (
                Resolver { input: cleared_input(), ..r },
                Some(
                    emitted(
                        InputState { operator: Some(Operator::Undo), ..r.input },
                        Motion::NoMotion,
                    ),
                ),
            )
        } else if key_motion(c).is_some() {
            (Resolver { input: cleared_input(), ..r }, Some(emitted(r.input, key_motion(c).unwrap())))
        } else {
            (r, None)
        },
        _ => (r, None),
    }
}

/// A key in command mode: the next state and the action it completes.
pub open spec fn command_step(r: Resolver, key: Key) -> (Resolver, Option<ActionView>) {
    match key {
        Key::Enter => (
            Resolver { mode: Mode::Normal, buffer: Seq::empty(), cursor: 0, ..r },
            Some(ActionView::Command(r.buffer)),
        ),
        Key::Char(c) => if r.buffer.len() < usize::MAX {
            (
                Resolver {
                    buffer: r.buffer.insert(r.cursor as int, c),
                    cursor: (r.cursor + 1) as usize,
                    ..r
                },
                None,
            )
        } else {
            (r, None)
        },
        Key::Delete => if r.cursor < r.buffer.len() {
            (Resolver { buffer: r.buffer.remove(r.cursor as int), ..r }, None)
        } else {
            (r, None)
        },
        Key::Backspace => if r.buffer.len() > 0 {
            if r.cursor > 0 {
                (
                    Resolver {
                        buffer: r.buffer.remove(r.cursor - 1),
                        cursor: (r.cursor - 1) as usize,
                        ..r
                    },
                    None,
                )
            } else {
                (r, None)
            }
        } else {
            (Resolver { mode: Mode::Normal, buffer: Seq::empty(), cursor: 0, ..r }, None)
        },
        Key::Left => (
            Resolver {
                cursor: if r.cursor > 0 {
                    (r.cursor - 1) as usize
                } else {
                    0
                },
                ..r
            },
            None,
        ),
        Key::Right => (
            Resolver {
                cursor: if r.cursor + 1 <= r.buffer.len() {
                    (r.cursor + 1) as usize
                } else {
                    r.buffer.len() as usize
                },
                ..r
            },
            None,
        ),
        _ => (r, None),
    }
}

/// A key in any mode: Escape returns to normal mode and drops the pending
/// count, operator and command text; insert mode takes no key yet.
pub open spec fn key_step(r: Resolver, key: Key) -> (Resolver, Option<ActionView>) {
    if key == Key::Esc {
        (Resolver { mode: Mode::Normal, input: cleared_input(), buffer: Seq::empty(), cursor: 0 }, None)
    } else {
        match r.mode {
            Mode::Normal => normal_step(r, key),
            Mode::Insert => (r, None),
            Mode::Command => command_step(r, key),
        }
    }
}

/// The command text that quits.
pub open spec fn is_quit(s: Seq<char>) -> bool {
    ||| s.len() == 1 && s[0] == 'q'
    ||| s.len() == 4 && s[0] == 'q' && s[1] == 'u' && s[2] == 'i' && s[3] == 't'
}

/// The command that an action resolves to, if any.
pub open spec fn resolve(a: Option<ActionView>) -> Option<ResolvedCommand> {
    match a {
        Some(ActionView::Operation { count, operator, motion }) => match operator {
            Operator::Delete => Some(ResolvedCommand::Editor(EditorCommand::Delete { count, motion })),
            Operator::Yank => Some(ResolvedCommand::Editor(EditorCommand::Yank { count, motion })),
            Operator::Mute => Some(ResolvedCommand::Editor(EditorCommand::Mute { count, motion })),
            _ => None,
        },
        Some(ActionView::Command(s)) => if is_quit(s) {
            Some(ResolvedCommand::Editor(EditorCommand::Quit))
        } else {
            None
        },
        _ => None,
    }
}

/// The fields that key resolution leaves alone are as they were.
pub open spec fn rest_unchanged(pre: &AppState, post: &AppState) -> bool {
    post.running == pre.running && post.windows == pre.windows
}

/// Digits accumulate decimally in normal mode: a digit key multiplies the
/// pending count by ten and adds the digit, keeps the pending operator and
/// the mode, and completes no action, as long as the count fits.
pub proof fn lemma_digits_accumulate(r: Resolver, c: char)
    requires
        r.mode == Mode::Normal,
        is_digit(c),
        r.input.count * 10 + digit_value(c) <= usize::MAX,
    ensures
        key_step(r, Key::Char(c)).0 == (Resolver {
            input: InputState {
                count: (r.input.count * 10 + digit_value(c)) as usize,
                operator: r.input.operator,
            },
            ..r
        }),
        key_step(r, Key::Char(c)).1.is_none(),
{
}

/// A pending operator serves one motion only: after a motion in normal
/// mode, the next motion key, with no new count or operator, is a plain
/// move by one.
pub proof fn lemma_operator_is_one_shot(r: Resolver, first: char, second: char)
    requires
        r.mode == Mode::Normal,
        key_motion(first).is_some(),
        key_motion(second).is_some(),
    ensures
        key_step(key_step(r, Key::Char(first)).0, Key::Char(second)).1 == Some(
            ActionView::Move { count: 1, motion: key_motion(second).unwrap() },
        ),
{
}

/// Turns keys into commands.
pub struct Input;

impl Input {
    /// Feeds one key to the resolver and returns the command it completes,
    /// if any.
    pub fn handle_keypress(state: &mut AppState, key: Key) -> (r: Option<ResolvedCommand>)
        requires
            old(state).wf(),
        ensures
            final(state).wf(),
            rest_unchanged(old(state), final(state)),
            final(state).resolver() == key_step(old(state).resolver(), key).0,
            r == resolve(key_step(old(state).resolver(), key).1),
            key == Key::Esc ==> r.is_none() && final(state).mode == Mode::Normal
                && final(state).input_state.is_clear() && final(state).command_state.is_clear(),
    {
        if key == Key::Esc {
            state.input_state.clear();
            state.command_state.clear();
            assert(state.command_state.buffer@ =~= Seq::<char>::empty());
            state.mode = Mode::Normal;
            return None;
        }
        let action = match state.mode {
            Mode::Normal => handle_normal_mode(state, key),
            Mode::Insert => handle_insert_mode(state, key),
            Mode::Command => handle_command_mode(state, key),
        };
        resolve_action(action)
    }
}

fn digit_of(c: char) -> (r: Option<usize>)
    ensures
        r == if is_digit(c) {
            Some(digit_value(c) as usize)
        } else {
            None
        },
{
    if '0' <= c && c <= '9' {
        Some((c as u32 - '0' as u32) as usize)
    } else {
        None
    }
}

fn accumulate_digit(count: usize, d: usize) -> (r: usize)
    requires
        d < 10,
    ensures
        r == accumulate(count, d as nat),
{
    if count <= (usize::MAX - d) / 10 {
        proof {
            assert(count * 10 + d <= usize::MAX) by (nonlinear_arith)
                requires
                    count <= (usize::MAX - d) / 10,
                    d < 10,
            ;
        }
        count * 10 + d
    } else {
        proof {
            assert(count * 10 + d > usize::MAX) by (nonlinear_arith)
                requires
                    count > (usize::MAX - d) / 10,
                    d < 10,
            ;
        }
        usize::MAX
    }
}

fn handle_normal_mode(state: &mut AppState, key: Key) -> (r: Option<InputAction>)
    requires
        old(state).wf(),
        old(state).mode == Mode::Normal,
    ensures
        final(state).wf(),
        rest_unchanged(old(state), final(state)),
        (final(state).resolver(), action_view(r)) == normal_step(old(state).resolver(), key),
{
    let c = match key {
        Key::Char(c) => c,
        _ => return None,
    };
    if c == 'i' {
        state.input_state.clear();
        state.mode = Mode::Insert;
        return None;
    }
    if c == ':' || c == ';' {
        state.input_state.clear();
        state.command_state.clear();
        state.mode = Mode::Command;
        assert(state.command_state.buffer@ =~= Seq::<char>::empty());
        return None;
    }
    if let Some(d) = digit_of(c) {
        state.input_state.count = accumulate_digit(state.input_state.count, d);
        return None;
    }
    match c {
        'd' => {
            state.input_state.operator = Some(Operator::Delete);
            None
        },
        'y' => {
            state.input_state.operator = Some(Operator::Yank);
            None
        },
        'm' => {
            state.input_state.operator = Some(Operator::Mute);
            None
        },
        's' => {
            state.input_state.operator = Some(Operator::Solo);
            None
        },
        'u' => {
            state.input_state.operator = Some(Operator::Undo);
            emit_action(&mut state.input_state, Motion::NoMotion)
        },
        'h' => emit_action(&mut state.input_state, Motion::Left),
        'j' => emit_action(&mut state.input_state, Motion::Down),
        'k' => emit_action(&mut state.input_state, Motion::Up),
        'l' => emit_action(&mut state.input_state, Motion::Right),
        _ => None,
    }
}

/// Insert mode takes no key yet.
fn handle_insert_mode(state: &mut AppState, key: Key) -> (r: Option<InputAction>)
    ensures
        r.is_none(),
        *final(state) == *old(state),
{
    None
}

fn handle_command_mode(state: &mut AppState, key: Key) -> (r: Option<InputAction>)
    requires
        old(state).wf(),
        old(state).mode == Mode::Command,
    ensures
        final(state).wf(),
        rest_unchanged(old(state), final(state)),
        (final(state).resolver(), action_view(r)) == command_step(old(state).resolver(), key),
{
    let ghost pre = state.resolver();
    match key {
        Key::Enter => {
            let cmd = string_from_chars(&state.command_state.buffer);
            state.command_state.clear();
            state.mode = Mode::Normal;
            assert(state.command_state.buffer@ =~= Seq::<char>::empty());
            Some(InputAction::Command(cmd))
        },
        Key::Char(c) => {
            let command = &mut state.command_state;
            if command.buffer.len() < usize::MAX {
                command.buffer.insert(command.cursor, c);
                command.cursor = command.cursor + 1;
            }
            None
        },
        Key::Delete => {
            let command = &mut state.command_state;
            if command.cursor < command.buffer.len() {
                command.buffer.remove(command.cursor);
            }
            None
        },
        Key::Backspace => {
            if state.command_state.buffer.len() > 0 {
                let command = &mut state.command_state;
                if command.cursor > 0 {
                    command.cursor = command.cursor - 1;
                    command.buffer.remove(command.cursor);
                }
            } else {
                state.command_state.clear();
                state.mode = Mode::Normal;
                assert(state.command_state.buffer@ =~= Seq::<char>::empty());
            }
            None
        },
        Key::Left => {
            let command = &mut state.command_state;
            command.cursor = if command.cursor > 0 {
                command.cursor - 1
            } else {
                0
            };
            None
        },
        Key::Right => {
            let command = &mut state.command_state;
            command.cursor = if command.cursor < command.buffer.len() {
                command.cursor + 1
            } else {
                command.buffer.len()
            };
            None
        },
        _ => None,
    }
}

fn resolve_action(action: Option<InputAction>) -> (r: Option<ResolvedCommand>)
    ensures
        r == resolve(action_view(action)),
{
    match action {
        Some(InputAction::Move { count, motion }) => resolve_move(count, motion),
        Some(InputAction::Operation { count, operator, motion }) => resolve_operation(
            count,
            operator,
            motion,
        ),
        Some(InputAction::Command(cmd)) => resolve_command(cmd),
        None => None,
    }
}

/// Bare moves resolve to no command yet.
fn resolve_move(count: usize, motion: Motion) -> (r: Option<ResolvedCommand>)
    ensures
        r.is_none(),
{
    None
}

fn resolve_operation(count: usize, operator: Operator, motion: Motion) -> (r: Option<
    ResolvedCommand,
>)
    ensures
        r == resolve(Some(ActionView::Operation { count, operator, motion })),
{
    match operator {
        Operator::Delete => Some(ResolvedCommand::Editor(EditorCommand::Delete { count, motion })),
        Operator::Yank => Some(ResolvedCommand::Editor(EditorCommand::Yank { count, motion })),
        Operator::Mute => Some(ResolvedCommand::Editor(EditorCommand::Mute { count, motion })),
        _ => None,
    }
}

/// Command text resolves by exact match: "q" and "quit" quit.
pub fn resolve_command(command: String) -> (r: Option<ResolvedCommand>)
    ensures
        r == resolve(Some(ActionView::Command(command@))),
{
    let s = command.as_str();
    let n = s.unicode_len();
    let quit = if n == 1 {
        s.get_char(0) == 'q'
    } else if n == 4 {
        s.get_char(0) == 'q' && s.get_char(1) == 'u' && s.get_char(2) == 'i' && s.get_char(3) == 't'
    } else {
        false
    };
    if quit {
        Some(ResolvedCommand::Editor(EditorCommand::Quit))
    } else {
        None
    }
}

} // verus!
