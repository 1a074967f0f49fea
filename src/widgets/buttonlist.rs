use vstd::prelude::*;

verus! {

/// One entry of a button list.
#[derive(Clone, Debug, PartialEq, Eq)]
pub struct Button {
    pub label: String,
    pub height: u16,
}

/// The buttons of a list and the one under the cursor, if any.
#[derive(Clone, Debug, Default)]
pub struct ButtonListState {
    items: Vec<Button>,
    hovered: Option<usize>,
}

/// `i + count`, held within the range of `usize`.
pub open spec fn saturating_add_signed(i: usize, count: i32) -> usize {
    if i + count < 0 {
        0
    } else if i + count > usize::MAX {
        usize::MAX
    } else {
        (i + count) as usize
    }
}

/// The larger index `i` may not pass on a list of `len` buttons.
pub open spec fn clamp_to_last(i: usize, len: nat) -> usize {
    if i < len - 1 {
        i
    } else {
        (len - 1) as usize
    }
}

impl ButtonListState {
    pub closed spec fn spec_items(&self) -> Seq<Button> {
        self.items@
    }

    pub closed spec fn spec_hovered(&self) -> Option<usize> {
        self.hovered
    }

    pub fn new(buttons: Vec<Button>) -> (r: Self)
        ensures
            r.spec_items() == buttons@,
            r.spec_hovered().is_none(),
    {
        Self { items: buttons, hovered: None }
    }

    /// Puts the cursor on `hovered`, or takes it away.
    pub fn hovered(&mut self, hovered: Option<usize>) -> (r: &mut Self)
        ensures
            r.spec_items() == old(self).spec_items(),
            r.spec_hovered() == hovered,
            *final(self) == *final(r),
    {
        self.hovered = hovered;
        self
    }

    /// The buttons, in order.
    pub fn items(&self) -> (r: &Vec<Button>)
        ensures
            r@ == self.spec_items(),
    {
        &self.items
    }

    /// The index under the cursor, if any.
    pub fn hovered_index(&self) -> (r: Option<usize>)
        ensures
            r == self.spec_hovered(),
    {
        self.hovered
    }

    pub fn add_button(&mut self, button: Button)
        ensures
            final(self).spec_items() == old(self).spec_items().push(button),
            final(self).spec_hovered() == old(self).spec_hovered(),
    {
        self.items.push(button);
    }

    pub fn first_button(&mut self)
        ensures
            final(self).spec_items() == old(self).spec_items(),
            final(self).spec_hovered() == if old(self).spec_items().len() == 0 {
                None
            } else {
                Some(0usize)
            },
    {
        if self.items.is_empty() {
            self.hovered = None;
            return ;
        }
        self.hovered = Some(0);
    }

    pub fn last_button(&mut self)
        ensures
            final(self).spec_items() == old(self).spec_items(),
            final(self).spec_hovered() == if old(self).spec_items().len() == 0 {
                None
            } else {
                Some((old(self).spec_items().len() - 1) as usize)
            },
    {
        if self.items.is_empty() {
            self.hovered = None;
            return ;
        }
        self.hovered = Some(self.items.len() - 1);
    }

    /// Moves the cursor one down, stopping at the last button; without a
    /// cursor, puts it on the first.
    pub fn next_button(&mut self)
        ensures
            final(self).spec_items() == old(self).spec_items(),
            final(self).spec_hovered() == if old(self).spec_items().len() == 0 {
                None
            } else {
                match old(self).spec_hovered() {
                    None => Some(0usize),
                    Some(i) => Some(
                        clamp_to_last(
                            if i < usize::MAX {
                                (i + 1) as usize
                            } else {
                                i
                            },
                            old(self).spec_items().len(),
                        ),
                    ),
                }
            },
    {
        if self.items.is_empty() {
            self.hovered = None;
            return ;
        }
        let last = self.items.len() - 1;
        self.hovered = Some(
            match self.hovered {
                None => 0,
                Some(i) => if i < last {
                    i + 1
                } else {
                    last
                },
            },
        );
    }

    /// Moves the cursor one up, stopping at the first button; without a
    /// cursor, puts it on the first.
    pub fn previous_button(&mut self)
        ensures
            final(self).spec_items() == old(self).spec_items(),
            final(self).spec_hovered() == if old(self).spec_items().len() == 0 {
                None
            } else {
                match old(self).spec_hovered() {
                    None => Some(0usize),
                    Some(i) => Some(
                        if i > 0 {
                            (i - 1) as usize
                        } else {
                            0
                        },
                    ),
                }
            },
    {
        if self.items.is_empty() {
            self.hovered = None;
            return ;
        }
        self.hovered = Some(
            match self.hovered {
                None => 0,
                Some(i) => if i > 0 {
                    i - 1
                } else {
                    0
                },
            },
        );
    }

    /// Moves the cursor by `count`, held within the list; without a cursor,
    /// puts it on the first.
    pub fn jump_buttons(&mut self, count: i32)
        ensures
            final(self).spec_items() == old(self).spec_items(),
            final(self).spec_hovered() == if old(self).spec_items().len() == 0 {
                None
            } else {
                match old(self).spec_hovered() {
                    None => Some(0usize),
                    Some(i) => Some(
                        clamp_to_last(
                            saturating_add_signed(i, count),
                            old(self).spec_items().len(),
                        ),
                    ),
                }
            },
    {
        if self.items.is_empty() {
            self.hovered = None;
            return ;
        }
        let last = self.items.len() - 1;
        self.hovered = Some(
            match self.hovered {
                None => 0,
                Some(i) => {
                    let moved: usize = if count >= 0 {
                        let step = count as usize;
                        if i <= usize::MAX - step {
                            i + step
                        } else {
                            usize::MAX
                        }
                    } else {
                        let step = (-(count as i64)) as usize;
                        if i >= step {
                            i - step
                        } else {
                            0
                        }
                    };
                    if moved < last {
                        moved
                    } else {
                        last
                    }
                },
            },
        );
    }

    pub fn no_button(&mut self)
        ensures
            final(self).spec_items() == old(self).spec_items(),
            final(self).spec_hovered().is_none(),
    {
        self.hovered = None;
    }
}

} // verus!
