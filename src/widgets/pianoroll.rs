use vstd::prelude::*;

use crate::input::LocalCommand;
use crate::window::Window;

verus! {

/// A note on the grid: pitch, start and length.
#[derive(Clone, Copy, Debug, PartialEq, Eq, Structural)]
pub struct Note {
    pub freq: u32,
    pub start: u32,
    pub length: u32,
}

/// A cell of the grid.
#[derive(Clone, Copy, Debug, Default, PartialEq, Eq, Structural)]
pub struct Pos2 {
    pub x: u16,
    pub y: u16,
}

/// The state of a piano-roll window.
#[derive(Clone, Debug)]
pub struct PianoRollState {
    id: usize,
    selected: Pos2,
    note_size: u8,
    notes: Vec<Note>,
    zoom: u8,
}

impl PianoRollState {
    pub closed spec fn spec_id(&self) -> usize {
        self.id
    }

    pub closed spec fn spec_selected(&self) -> Pos2 {
        self.selected
    }

    pub closed spec fn spec_notes(&self) -> Seq<Note> {
        self.notes@
    }

    pub closed spec fn spec_note_size(&self) -> u8 {
        self.note_size
    }

    pub closed spec fn spec_zoom(&self) -> u8 {
        self.zoom
    }

    /// An empty roll with the cursor on cell (2, 2), notes of size 4 and no zoom.
    pub fn new(id: usize) -> (r: Self)
        ensures
            r.spec_id() == id,
            r.spec_selected() == (Pos2 { x: 2, y: 2 }),
            r.spec_note_size() == 4,
            r.spec_notes().len() == 0,
            r.spec_zoom() == 1,
    {
        Self { id, selected: Pos2 { x: 2, y: 2 }, note_size: 4, notes: Vec::new(), zoom: 1 }
    }

    pub fn id(&self) -> (r: usize)
        ensures
            r == self.spec_id(),
    {
        self.id
    }

    /// The cell under the cursor.
    pub fn selected(&self) -> (r: Pos2)
        ensures
            r == self.spec_selected(),
    {
        self.selected
    }
}

impl Window for PianoRollState {
    /// Local commands do not change the roll yet.
    open spec fn handled(&self, cmd: LocalCommand, next: Self) -> bool {
        next == *self
    }

    fn handle_input(&mut self, cmd: LocalCommand) {
    }
}

} // verus!
