use vstd::prelude::*;

use std::collections::HashMap;

use crate::input::LocalCommand;
use crate::layout::{lemma_replace_leaf, Area, Direction, LayoutNode, Placement, Ratio};

verus! {

broadcast use vstd::std_specs::hash::group_hash_axioms;

/// What a window does for the manager besides being drawn.
pub trait Window: Sized {
    /// `next` is what this window becomes when it handles `cmd`.
    spec fn handled(&self, cmd: LocalCommand, next: Self) -> bool;

    fn handle_input(&mut self, cmd: LocalCommand)
        ensures
            old(self).handled(cmd, *final(self)),
    ;
}

/// The state of a window manager, as its contracts speak of it.
pub ghost struct ManagerView<W> {
    pub focused: Option<usize>,
    pub windows: Map<usize, W>,
    pub layout_tree: LayoutNode,
    pub last_window_id: usize,
    pub popup_stack: Seq<usize>,
}

impl<W> ManagerView<W> {
    /// Every referenced window exists, ids are fresh above `last_window_id`,
    /// focus names a leaf, popups are distinct and lie outside the tree.
    pub open spec fn wf(self) -> bool {
        &&& forall|id: usize| #[trigger]
            self.layout_tree.leaves().contains(id) ==> self.windows.contains_key(id)
        &&& forall|i: int|
            0 <= i < self.popup_stack.len() ==> self.windows.contains_key(
                #[trigger] self.popup_stack[i],
            )
        &&& forall|id: usize| #[trigger] self.windows.contains_key(id) ==> id <= self.last_window_id
        &&& self.focused matches Some(f) ==> self.layout_tree.leaves().contains(f)
        &&& self.layout_tree.ratios_wf()
        &&& self.popup_stack.no_duplicates()
        &&& forall|i: int|
            0 <= i < self.popup_stack.len() ==> !self.layout_tree.leaves().contains(
                #[trigger] self.popup_stack[i],
            )
    }

    /// The window that receives input and shows the focus: the top popup if
    /// any, else the focused leaf.
    pub open spec fn effective_focus(self) -> Option<usize> {
        if self.popup_stack.len() > 0 {
            Some(self.popup_stack.last())
        } else {
            self.focused
        }
    }

    /// This state with `window` opened as a popup under the next id.
    pub open spec fn with_popup(self, window: W) -> Self {
        ManagerView {
            windows: self.windows.insert(self.next_id(), window),
            last_window_id: self.next_id(),
            popup_stack: self.popup_stack.push(self.next_id()),
            ..self
        }
    }

    /// This state with the top popup closed and removed from the registry.
    pub open spec fn without_top_popup(self) -> Self {
        ManagerView {
            windows: self.windows.remove(self.popup_stack.last()),
            popup_stack: self.popup_stack.drop_last(),
            ..self
        }
    }

    /// The id that the next new window gets.
    pub open spec fn next_id(self) -> usize {
        (self.last_window_id + 1) as usize
    }

    /// A fresh id is left to hand out.
    pub open spec fn has_free_id(self) -> bool {
        self.last_window_id < usize::MAX
    }
}

impl<W: Window> ManagerView<W> {
    /// `post` is this state after `cmd` went to the window that receives
    /// input, which handled it; no other window, and nothing else, changed.
    pub open spec fn routed_input(self, post: Self, cmd: LocalCommand) -> bool {
        &&& post == (ManagerView { windows: post.windows, ..self })
        &&& post.windows.dom() == self.windows.dom()
        &&& self.effective_focus() matches Some(t) ==> self.windows[t].handled(
            cmd,
            post.windows[t],
        )
        &&& forall|id: usize|
            #![trigger post.windows[id]]
            self.effective_focus() != Some(id) && self.windows.contains_key(id) ==> post.windows[id]
                == self.windows[id]
    }
}

/// Owns the windows, the layout tree over them and the popup stack.
pub struct WindowManager<W> {
    focused: Option<usize>,
    windows: HashMap<usize, W>,
    layout_tree: LayoutNode,
    last_window_id: usize,
    popup_stack: Vec<usize>,
}

impl<W> View for WindowManager<W> {
    type V = ManagerView<W>;

    closed spec fn view(&self) -> ManagerView<W> {
        ManagerView {
            focused: self.focused,
            windows: self.windows@,
            layout_tree: self.layout_tree,
            last_window_id: self.last_window_id,
            popup_stack: self.popup_stack@,
        }
    }
}

impl<W: Window> WindowManager<W> {
    /// A manager whose layout is the single window `base`, with id 0 and focus.
    pub fn new(base: W) -> (r: Self)
        ensures
            r@.wf(),
            r@.focused == Some(0usize),
            r@.windows == Map::<usize, W>::empty().insert(0, base),
            r@.layout_tree == LayoutNode::Window(0),
            r@.last_window_id == 0,
            r@.popup_stack.len() == 0,
    {
        let base_id: usize = 0;
        let mut windows: HashMap<usize, W> = HashMap::new();
        windows.insert(base_id, base);
        let r = Self {
            focused: Some(base_id),
            windows,
            layout_tree: LayoutNode::Window(base_id),
            last_window_id: base_id,
            popup_stack: Vec::new(),
        };
        proof {
            assert(r.layout_tree.leaves() =~= seq![0usize]);
            assert(r.layout_tree.leaves()[0] == 0);
        }
        r
    }

    /// Registers `window` under a fresh id and returns the id.
    fn push_window(&mut self, window: W) -> (r: usize)
        requires
            old(self)@.has_free_id(),
        ensures
            r == old(self)@.next_id(),
            final(self)@ == (ManagerView {
                windows: old(self)@.windows.insert(r, window),
                last_window_id: r,
                ..old(self)@
            }),
    {
        self.last_window_id = self.last_window_id + 1;
        self.windows.insert(self.last_window_id, window);
        self.last_window_id
    }

    /// Takes `id` out of the registry and returns it, if it was there.
    fn remove_window(&mut self, id: usize) -> (r: Option<usize>)
        ensures
            r == (if old(self)@.windows.contains_key(id) {
                Some(id)
            } else {
                None
            }),
            final(self)@ == (ManagerView { windows: old(self)@.windows.remove(id), ..old(self)@ }),
    {
        if self.windows.remove(&id).is_some() {
            Some(id)
        } else {
            None
        }
    }

    /// Whether a fresh id is left to hand out.
    pub fn has_free_id(&self) -> (r: bool)
        ensures
            r == self@.has_free_id(),
    {
        self.last_window_id < usize::MAX
    }

    /// Opens `window` as a popup above everything else.
    pub fn push_popup(&mut self, window: W)
        requires
            old(self)@.wf(),
            old(self)@.has_free_id(),
        ensures
            final(self)@.wf(),
            final(self)@ == old(self)@.with_popup(window),
    {
        let ghost pre = self@;
        let id = self.push_window(window);
        self.popup_stack.push(id);
        proof {
            let post = self@;
            assert(post.popup_stack == pre.popup_stack.push(id));
            assert forall|i: int| 0 <= i < post.popup_stack.len() implies !post.layout_tree.leaves().contains(
                #[trigger] post.popup_stack[i],
            ) by {
                if i < pre.popup_stack.len() {
                    assert(post.popup_stack[i] == pre.popup_stack[i]);
                } else if pre.layout_tree.leaves().contains(id) {
                    assert(pre.windows.contains_key(id));
                }
            }
            assert forall|i: int, j: int|
                0 <= i < post.popup_stack.len() && 0 <= j < post.popup_stack.len() && i != j
                implies post.popup_stack[i] != post.popup_stack[j] by {
                if i < pre.popup_stack.len() && j < pre.popup_stack.len() {
                    assert(pre.popup_stack[i] != pre.popup_stack[j]);
                } else if i < pre.popup_stack.len() {
                    assert(pre.windows.contains_key(pre.popup_stack[i]));
                } else {
                    assert(pre.windows.contains_key(pre.popup_stack[j]));
                }
            }
            assert forall|i: int| 0 <= i < post.popup_stack.len() implies post.windows.contains_key(
                #[trigger] post.popup_stack[i],
            ) by {
                if i < pre.popup_stack.len() {
                    assert(pre.windows.contains_key(pre.popup_stack[i]));
                }
            }
        }
    }

    /// Closes the top popup and returns its id, or returns `None` when no
    /// popup is open.
    pub fn pop_popup(&mut self) -> (r: Option<usize>)
        requires
            old(self)@.wf(),
        ensures
            final(self)@.wf(),
            old(self)@.popup_stack.len() == 0 ==> r.is_none() && final(self)@ == old(self)@,
            old(self)@.popup_stack.len() > 0 ==> r == Some(old(self)@.popup_stack.last())
                && final(self)@ == old(self)@.without_top_popup(),
    {
        let ghost pre = self@;
        if let Some(id) = self.popup_stack.pop() {
            proof {
                assert(pre.windows.contains_key(pre.popup_stack[pre.popup_stack.len() - 1]));
            }
            let r = self.remove_window(id);
            proof {
                let post = self@;
                assert(post.popup_stack =~= pre.popup_stack.drop_last());
                assert forall|x: usize| #[trigger]
                    post.layout_tree.leaves().contains(x) implies post.windows.contains_key(x) by {
                    assert(pre.windows.contains_key(x));
                    assert(!pre.layout_tree.leaves().contains(pre.popup_stack[pre.popup_stack.len() - 1]));
                }
                assert forall|i: int| 0 <= i < post.popup_stack.len() implies post.windows.contains_key(
                    #[trigger] post.popup_stack[i],
                ) by {
                    assert(pre.popup_stack[i] == post.popup_stack[i]);
                    assert(pre.windows.contains_key(pre.popup_stack[i]));
                    assert(pre.popup_stack[i] != pre.popup_stack[pre.popup_stack.len() - 1]);
                }
                assert forall|i: int| 0 <= i < post.popup_stack.len() implies !post.layout_tree.leaves().contains(
                    #[trigger] post.popup_stack[i],
                ) by {
                    assert(pre.popup_stack[i] == post.popup_stack[i]);
                }
            }
            r
        } else {
            None
        }
    }

    /// Whether a popup is open.
    pub fn is_popup_active(&self) -> (r: bool)
        ensures
            r == (self@.popup_stack.len() > 0),
    {
        !self.popup_stack.is_empty()
    }

    /// Splits the focused leaf evenly along `direction`: the old window keeps
    /// the first half, `new_window` gets a fresh id, the second half and the
    /// focus. Without focus nothing changes and the result is false.
    pub fn split_current_window(&mut self, direction: Direction, new_window: W) -> (r: bool)
        requires
            old(self)@.wf(),
            old(self)@.focused.is_some() ==> old(self)@.has_free_id(),
        ensures
            final(self)@.wf(),
            r == old(self)@.focused.is_some(),
            !r ==> *final(self) == *old(self),
            r ==> final(self)@ == (ManagerView {
                focused: Some(old(self)@.next_id()),
                windows: old(self)@.windows.insert(old(self)@.next_id(), new_window),
                layout_tree: old(self)@.layout_tree.replace_leaf(
                    old(self)@.focused.unwrap(),
                    LayoutNode::even_split(direction, old(self)@.focused.unwrap(), old(self)@.next_id()),
                ),
                last_window_id: old(self)@.next_id(),
                popup_stack: old(self)@.popup_stack,
            }),
    {
        let ghost pre = self@;
        let focus = match self.focused {
            Some(f) => f,
            None => return false,
        };
        if !self.layout_tree.has_leaf(focus) {
            return false;
        }
        let new_id = self.push_window(new_window);
        let mut tree = LayoutNode::Window(new_id);
        std::mem::swap(&mut tree, &mut self.layout_tree);
        let split = LayoutNode::Split {
            direction,
            ratio: Ratio::half(),
            first: Box::new(LayoutNode::Window(focus)),
            second: Box::new(LayoutNode::Window(new_id)),
        };
        let ghost with = split;
        self.layout_tree = tree.replace_first_leaf(focus, split);
        self.focused = Some(new_id);
        proof {
            let post = self@;
            assert(LayoutNode::Window(focus).leaves() =~= seq![focus]);
            assert(LayoutNode::Window(new_id).leaves() =~= seq![new_id]);
            assert(with.leaves() =~= seq![focus, new_id]);
            assert(LayoutNode::Window(focus).ratios_wf());
            assert(LayoutNode::Window(new_id).ratios_wf());
            assert(with.ratios_wf());
            assert(with.leaves()[1] == new_id);
            assert(with.leaves().contains(new_id));
            lemma_replace_leaf(pre.layout_tree, focus, with);
            assert forall|x: usize| #[trigger] with.leaves().contains(x) implies x == focus || x == new_id by {
                let i = choose|i: int| 0 <= i < with.leaves().len() && with.leaves()[i] == x;
            }
            assert forall|x: usize| #[trigger] post.layout_tree.leaves().contains(x) implies post.windows.contains_key(x) by {
                if pre.layout_tree.leaves().contains(x) {
                    assert(pre.windows.contains_key(x));
                }
            }
            assert forall|i: int| 0 <= i < post.popup_stack.len() implies post.windows.contains_key(
                #[trigger] post.popup_stack[i],
            ) by {
                assert(pre.windows.contains_key(pre.popup_stack[i]));
            }
            assert(post.layout_tree.leaves().contains(new_id));
            assert forall|id: usize| #[trigger] post.windows.contains_key(id) implies id <= post.last_window_id by {
                if id != new_id {
                    assert(pre.windows.contains_key(id));
                }
            }
            assert forall|i: int| 0 <= i < post.popup_stack.len() implies !post.layout_tree.leaves().contains(
                #[trigger] post.popup_stack[i],
            ) by {
                let p = pre.popup_stack[i];
                assert(pre.windows.contains_key(p));
                assert(!pre.layout_tree.leaves().contains(p));
                if with.leaves().contains(p) {
                    assert(p == focus || p == new_id);
                }
            }
        }
        true
    }

    /// What to draw where: each leaf of the tree in its part of `area`, then
    /// the top popup, if any, over the whole of `area`. The window that
    /// receives input is the one drawn with focus.
    pub fn render_layout(&self, area: Area) -> (r: Vec<Placement>)
        requires
            self@.wf(),
        ensures
            r@ == self@.layout_tree.placements(area, self@.effective_focus()) + if self@.popup_stack.len() > 0 {
                seq![Placement { id: self@.popup_stack.last(), area, focused: true }]
            } else {
                Seq::empty()
            },
    {
        let top = self.popup_stack.last();
        let focus = match top {
            Some(id) => Some(*id),
            None => self.focused,
        };
        let mut out: Vec<Placement> = Vec::new();
        self.layout_tree.place(area, focus, &mut out);
        match top {
            Some(id) => {
                out.push(Placement { id: *id, area, focused: true });
            },
            None => {
                assert(out@ =~= out@ + Seq::<Placement>::empty());
            },
        }
        out
    }

    /// Moves the focus to the leaf `id`.
    pub fn set_focuesed(&mut self, id: usize)
        requires
            old(self)@.wf(),
            old(self)@.layout_tree.leaves().contains(id),
        ensures
            final(self)@.wf(),
            final(self)@ == (ManagerView { focused: Some(id), ..old(self)@ }),
    {
        self.focused = Some(id);
    }

    /// Hands `cmd` to the window that receives input: the top popup if any,
    /// else the focused leaf. The other windows stay as they were.
    pub fn handle_input(&mut self, cmd: LocalCommand)
        requires
            old(self)@.wf(),
        ensures
            final(self)@.wf(),
            old(self)@.routed_input(final(self)@, cmd),
    {
        let ghost pre = self@;
        let top = self.popup_stack.last();
        let focus = match top {
            Some(id) => Some(*id),
            None => self.focused,
        };
        if let Some(id) = focus {
            proof {
                if pre.popup_stack.len() > 0 {
                    assert(pre.windows.contains_key(pre.popup_stack[pre.popup_stack.len() - 1]));
                }
            }
            if let Some(mut window) = self.windows.remove(&id) {
                window.handle_input(cmd);
                self.windows.insert(id, window);
                proof {
                    assert(self@.windows.dom() =~= pre.windows.dom());
                }
            }
        }
        proof {
            if let Some(t) = pre.effective_focus() {
                if pre.popup_stack.len() == 0 {
                    assert(pre.windows.contains_key(t));
                }
            }
        }
    }

    /// The focused leaf, if any.
    pub fn focused(&self) -> (r: Option<usize>)
        ensures
            r == self@.focused,
    {
        self.focused
    }

    /// The layout tree.
    pub fn layout_tree(&self) -> (r: &LayoutNode)
        ensures
            *r == self@.layout_tree,
    {
        &self.layout_tree
    }

    /// The ids of the open popups, the top one last.
    pub fn popup_stack(&self) -> (r: &Vec<usize>)
        ensures
            r@ == self@.popup_stack,
    {
        &self.popup_stack
    }

    /// Whether the registry holds a window with this id.
    pub fn contains_window(&self, id: usize) -> (r: bool)
        ensures
            r == self@.windows.contains_key(id),
    {
        self.windows.contains_key(&id)
    }

    /// The window with this id, if the registry holds one.
    pub fn window(&self, id: usize) -> (r: Option<&W>)
        ensures
            match r {
                Some(w) => self@.windows.contains_key(id) && *w == self@.windows[id],
                None => !self@.windows.contains_key(id),
            },
    {
        self.windows.get(&id)
    }

}

/// Popups close in the reverse order of opening: closing the popup just
/// opened hands back its id and leaves the state as it was, except that
/// the id is spent.
pub proof fn lemma_popup_lifo<W>(v: ManagerView<W>, window: W)
    requires
        v.wf(),
        v.has_free_id(),
    ensures
        v.with_popup(window).popup_stack.last() == v.next_id(),
        v.with_popup(window).without_top_popup() == (ManagerView {
            last_window_id: v.next_id(),
            ..v
        }),
{
    let w = v.with_popup(window);
    assert(!v.windows.contains_key(v.next_id()));
    assert(w.windows.remove(v.next_id()) =~= v.windows);
    assert(w.popup_stack.drop_last() =~= v.popup_stack);
}

} // verus!
