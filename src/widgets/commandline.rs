use vstd::prelude::*;

use crate::editor::AppState;
use crate::input::Mode;
use crate::text::string_from_chars;

verus! {

/// The mode as the status line names it.
pub open spec fn mode_label(mode: Mode) -> Seq<char> {
    match mode {
        Mode::Normal => seq!['-', '-', ' ', 'N', 'O', 'R', 'M', 'A', 'L', ' ', '-', '-'],
        Mode::Insert => seq!['-', '-', ' ', 'I', 'N', 'S', 'E', 'R', 'T', ' ', '-', '-'],
        Mode::Command => seq!['-', '-', ' ', 'C', 'O', 'M', 'M', 'A', 'N', 'D', ' ', '-', '-'],
    }
}

/// Appends `s[from..to]` to `out`.
fn push_range(s: &Vec<char>, from: usize, to: usize, out: &mut Vec<char>)
    requires
        from <= to <= s@.len(),
    ensures
        final(out)@ == old(out)@ + s@.subrange(from as int, to as int),
{
    let mut i = from;
    while i < to
        invariant
            from <= i <= to <= s@.len(),
            out@ == old(out)@ + s@.subrange(from as int, i as int),
        decreases to - i,
    {
        out.push(s[i]);
        i += 1;
        assert(out@ =~= old(out)@ + s@.subrange(from as int, i as int));
    }
}

/// The text of the line at the bottom of the screen.
pub struct CommandLine;

impl CommandLine {
    /// The mode's label.
    pub fn get_mode(state: &AppState) -> (r: String)
        ensures
            r@ == mode_label(state.mode),
    {
        let label: Vec<char> = match state.mode {
            Mode::Normal => vec!['-', '-', ' ', 'N', 'O', 'R', 'M', 'A', 'L', ' ', '-', '-'],
            Mode::Insert => vec!['-', '-', ' ', 'I', 'N', 'S', 'E', 'R', 'T', ' ', '-', '-'],
            Mode::Command => vec!['-', '-', ' ', 'C', 'O', 'M', 'M', 'A', 'N', 'D', ' ', '-', '-'],
        };
        assert(label@ =~= mode_label(state.mode));
        string_from_chars(&label)
    }

    /// The status line outside command mode, on a line `width` cells wide:
    /// the mode's label on the left, the pending input on the right, and
    /// the blanks between them.
    pub fn normal_line(state: &AppState, width: u16) -> (r: (String, usize, String))
        ensures
            r.0@ == mode_label(state.mode),
            r.2@ == state.input_state.spec_display(),
            r.1 == if r.0@.len() + r.2@.len() <= width {
                width - r.0@.len() - r.2@.len()
            } else {
                0
            },
    {
        let left = CommandLine::get_mode(state);
        let right = state.input_state.display();
        let used = left.as_str().unicode_len() as u128 + right.as_str().unicode_len() as u128;
        let blanks: usize = if used <= width as u128 {
            (width as u128 - used) as usize
        } else {
            0
        };
        (left, blanks, right)
    }

    /// The command line: the text before the cursor, the character under
    /// it (a blank past the end) and the text after it.
    pub fn command_line(state: &AppState) -> (r: (String, char, String))
        ensures
            ({
                let b = state.command_state.buffer@;
                let c = if state.command_state.cursor <= b.len() {
                    state.command_state.cursor as int
                } else {
                    b.len() as int
                };
                &&& r.0@ == b.subrange(0, c)
                &&& c < b.len() ==> r.1 == b[c] && r.2@ == b.subrange(c + 1, b.len() as int)
                &&& c == b.len() ==> r.1 == ' ' && r.2@.len() == 0
            }),
    {
        let buffer = &state.command_state.buffer;
        let len = buffer.len();
        let cursor = if state.command_state.cursor <= len {
            state.command_state.cursor
        } else {
            len
        };
        let mut before: Vec<char> = Vec::new();
        push_range(buffer, 0, cursor, &mut before);
        let mut after: Vec<char> = Vec::new();
        let at = if cursor < len {
            push_range(buffer, cursor + 1, len, &mut after);
            buffer[cursor]
        } else {
            ' '
        };
        assert(before@ =~= buffer@.subrange(0, cursor as int));
        assert(cursor < len ==> after@ =~= buffer@.subrange(cursor + 1, len as int));
        (string_from_chars(&before), at, string_from_chars(&after))
    }
}

} // verus!
