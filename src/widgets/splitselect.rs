use vstd::prelude::*;

use crate::input::LocalCommand;
use crate::layout::Direction;
use crate::text::{decimal, push_decimal, string_from_chars};
use crate::widgets::buttonlist::{clamp_to_last, saturating_add_signed, Button, ButtonListState};
use crate::window::Window;

verus! {

/// The label of the `i`-th choice: "Button " and its number.
pub open spec fn choice_label(i: nat) -> Seq<char> {
    seq!['B', 'u', 't', 't', 'o', 'n', ' '] + decimal(i)
}

/// The number of choices that a split chooser offers.
pub const CHOICE_COUNT: usize = 5;

/// A popup that lets the user choose what a new split shows.
#[derive(Clone, Debug)]
pub struct SplitSelect {
    list_state: ButtonListState,
    direction: Direction,
}

impl SplitSelect {
    pub closed spec fn spec_list(&self) -> ButtonListState {
        self.list_state
    }

    pub closed spec fn spec_direction(&self) -> Direction {
        self.direction
    }

    /// A chooser for a split along `direction`, with its choices one row
    /// high and no cursor.
    pub fn new(direction: Direction) -> (r: Self)
        ensures
            r.spec_direction() == direction,
            r.spec_list().spec_hovered().is_none(),
            r.spec_list().spec_items().len() == CHOICE_COUNT,
            forall|i: int|
                0 <= i < CHOICE_COUNT ==> {
                    &&& (#[trigger] r.spec_list().spec_items()[i]).label@ == choice_label(i as nat)
                    &&& r.spec_list().spec_items()[i].height == 1
                },
    {
        let mut buttons: Vec<Button> = Vec::new();
        let mut i: usize = 0;
        while i < CHOICE_COUNT
            invariant
                i <= CHOICE_COUNT,
                buttons@.len() == i,
                forall|j: int|
                    0 <= j < i ==> {
                        &&& (#[trigger] buttons@[j]).label@ == choice_label(j as nat)
                        &&& buttons@[j].height == 1
                    },
            decreases CHOICE_COUNT - i,
        {
            let mut label: Vec<char> = vec!['B', 'u', 't', 't', 'o', 'n', ' '];
            push_decimal(i, &mut label);
            buttons.push(Button { label: string_from_chars(&label), height: 1 });
            i += 1;
        }
        Self { list_state: ButtonListState::new(buttons), direction }
    }

    /// The direction of the split that is being chosen for.
    pub fn direction(&self) -> (r: Direction)
        ensures
            r == self.spec_direction(),
    {
        self.direction
    }

    /// The list of choices.
    pub fn list_state(&self) -> (r: &ButtonListState)
        ensures
            *r == self.spec_list(),
    {
        &self.list_state
    }
}

/// `-dy`, held within the range of `i32`.
pub open spec fn negated(dy: i32) -> i32 {
    if dy == i32::MIN {
        i32::MAX
    } else {
        (-dy) as i32
    }
}

impl SplitSelect {
    /// `next` is this chooser with its cursor moved up by `dy` rows.
    pub open spec fn moved(self, dy: i32, next: Self) -> bool {
        &&& next.spec_direction() == self.spec_direction()
        &&& next.spec_list().spec_items() == self.spec_list().spec_items()
        &&& next.spec_list().spec_hovered() == if self.spec_list().spec_items().len() == 0 {
            None
        } else {
            match self.spec_list().spec_hovered() {
                None => Some(0usize),
                Some(i) => Some(
                    clamp_to_last(
                        saturating_add_signed(i, negated(dy)),
                        self.spec_list().spec_items().len(),
                    ),
                ),
            }
        }
    }

    /// Moves the cursor up by `dy` rows: a positive `dy` goes towards the
    /// first choice.
    pub fn move_cursor(&mut self, dy: i32)
        ensures
            old(self).moved(dy, *final(self)),
    {
        let up: i32 = if dy == i32::MIN {
            i32::MAX
        } else {
            -dy
        };
        self.list_state.jump_buttons(up);
    }
}

impl Window for SplitSelect {
    /// The cursor moves up by the command's `dy`; `dx` is ignored.
    open spec fn handled(&self, cmd: LocalCommand, next: Self) -> bool {
        match cmd {
            LocalCommand::MoveLocalCursor { dy, .. } => self.moved(dy, next),
        }
    }

    fn handle_input(&mut self, cmd: LocalCommand) {
        match cmd {
            LocalCommand::MoveLocalCursor { dx: _, dy } => {
                self.move_cursor(dy);
            },
        }
    }
}

} // verus!
