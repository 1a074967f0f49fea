use vstd::prelude::*;

use vstd::arithmetic::div_mod::{lemma_fundamental_div_mod, lemma_fundamental_div_mod_converse};

use ratatui::layout::{Constraint, Layout, Rect};

verus! {

/// The axis along which a split lays out its two children.
#[derive(Clone, Copy, Debug, PartialEq, Eq, Structural)]
pub enum Direction {
    Horizontal,
    Vertical,
}

/// A rectangle of terminal cells.
#[derive(Clone, Copy, Debug, PartialEq, Eq, Structural)]
pub struct Area {
    pub x: u16,
    pub y: u16,
    pub width: u16,
    pub height: u16,
}

/// The share of a split that goes to its first child, as the fraction
/// `num / den`.
#[derive(Clone, Copy, Debug, PartialEq, Eq, Structural)]
pub struct Ratio {
    pub num: u32,
    pub den: u32,
}

impl Ratio {
    /// Strictly between 0 and 1.
    pub open spec fn wf(self) -> bool {
        0 < self.num < self.den
    }

    /// Whole percent of the area for the first child, rounded down.
    pub open spec fn spec_first_percent(self) -> int {
        (self.num as int * 100) / (self.den as int)
    }

    /// Whole percent of the area for the second child, rounded down.
    pub open spec fn spec_second_percent(self) -> int {
        ((self.den - self.num) as int * 100) / (self.den as int)
    }

    pub fn half() -> (r: Ratio)
        ensures
            r == (Ratio { num: 1, den: 2 }),
    {
        Ratio { num: 1, den: 2 }
    }

    pub fn first_percent(&self) -> (r: u16)
        requires
            self.wf(),
        ensures
            r == self.spec_first_percent(),
    {
        let p: u64 = (self.num as u64 * 100) / self.den as u64;
        proof {
            lemma_percent_bound(self.num as int, self.den as int);
        }
        p as u16
    }

    pub fn second_percent(&self) -> (r: u16)
        requires
            self.wf(),
        ensures
            r == self.spec_second_percent(),
    {
        let rest: u32 = self.den - self.num;
        let p: u64 = (rest as u64 * 100) / self.den as u64;
        proof {
            lemma_percent_bound(rest as int, self.den as int);
        }
        p as u16
    }
}

proof fn lemma_percent_bound(part: int, whole: int)
    requires
        0 <= part < whole,
    ensures
        0 <= (part * 100) / whole <= 100,
{
    assert(part * 100 <= whole * 100) by (nonlinear_arith)
        requires
            0 <= part < whole,
    ;
    assert((part * 100) / whole <= (whole * 100) / whole) by (nonlinear_arith)
        requires
            part * 100 <= whole * 100,
            0 < whole,
    ;
    assert((whole * 100) / whole == 100) by (nonlinear_arith)
        requires
            0 < whole,
    ;
    assert(0 <= (part * 100) / whole) by (nonlinear_arith)
        requires
            0 <= part,
            0 < whole,
    ;
}

/// Rounding each part down loses at most one percent: the two parts of a
/// split add up to 99 or 100 percent, and to 100 exactly when the first
/// share is a whole number of percent.
pub proof fn lemma_percent_truncation(ratio: Ratio)
    requires
        ratio.wf(),
    ensures
        99 <= ratio.spec_first_percent() + ratio.spec_second_percent() <= 100,
        ratio.spec_first_percent() + ratio.spec_second_percent() == 100 <==> (ratio.num as int
            * 100) % (ratio.den as int) == 0,
{
    let a = ratio.num as int * 100;
    let d = ratio.den as int;
    let b = (ratio.den - ratio.num) as int * 100;
    let q = a / d;
    let rr = a % d;
    lemma_fundamental_div_mod(a, d);
    assert(0 <= rr < d) by {
        lemma_fundamental_div_mod_converse(a, d, q, rr);
    }
    assert(b == 100 * d - a);
    if rr == 0 {
        assert(b == (100 - q) * d + 0) by (nonlinear_arith)
            requires
                b == 100 * d - a,
                a == d * q + rr,
                rr == 0,
        ;
        lemma_fundamental_div_mod_converse(b, d, 100 - q, 0);
    } else {
        assert(b == (99 - q) * d + (d - rr)) by (nonlinear_arith)
            requires
                b == 100 * d - a,
                a == d * q + rr,
        ;
        lemma_fundamental_div_mod_converse(b, d, 99 - q, d - rr);
    }
}

/// The two parts that the layout solver gives for a split of `area` along
/// `direction` into `first` and `second` percent.
pub uninterp spec fn percentage_split(direction: Direction, area: Area, first: u16, second: u16) -> (
    Area,
    Area,
);

/// Relies on ratatui's `Layout::split` with two `Constraint::Percentage`
/// constraints: it solves the two parts from its arguments alone.
#[verifier::external_body]
fn split_area(direction: Direction, area: Area, first: u16, second: u16) -> (r: (Area, Area))
    ensures
        r == percentage_split(direction, area, first, second),
{
    let axis = match direction {
        Direction::Horizontal => ratatui::layout::Direction::Horizontal,
        Direction::Vertical => ratatui::layout::Direction::Vertical,
    };
    let rect = Rect { x: area.x, y: area.y, width: area.width, height: area.height };
    let p = Layout::default().direction(axis).constraints(
        [Constraint::Percentage(first), Constraint::Percentage(second)],
    ).split(rect);
    let (a, b) = (p[0], p[1]);
    (
        Area { x: a.x, y: a.y, width: a.width, height: a.height },
        Area { x: b.x, y: b.y, width: b.width, height: b.height },
    )
}

/// The two parts of `area` for a split with the given direction and ratio.
pub open spec fn split_parts(direction: Direction, ratio: Ratio, area: Area) -> (Area, Area) {
    percentage_split(
        direction,
        area,
        ratio.spec_first_percent() as u16,
        ratio.spec_second_percent() as u16,
    )
}

/// Divides `area` between the two children of a split.
pub fn split_by_ratio(direction: Direction, ratio: Ratio, area: Area) -> (r: (Area, Area))
    requires
        ratio.wf(),
    ensures
        r == split_parts(direction, ratio, area),
{
    split_area(direction, area, ratio.first_percent(), ratio.second_percent())
}

proof fn lemma_concat_contains<A>(a: Seq<A>, b: Seq<A>, x: A)
    ensures
        (a + b).contains(x) <==> a.contains(x) || b.contains(x),
{
    if a.contains(x) {
        let i = choose|i: int| 0 <= i < a.len() && a[i] == x;
        assert((a + b)[i] == x);
    }
    if b.contains(x) {
        let i = choose|i: int| 0 <= i < b.len() && b[i] == x;
        assert((a + b)[a.len() + i] == x);
    }
    if (a + b).contains(x) {
        let i = choose|i: int| 0 <= i < (a + b).len() && (a + b)[i] == x;
        if i < a.len() {
            assert(a[i] == x);
        } else {
            assert(b[i - a.len()] == x);
        }
    }
}

/// What replacing a leaf keeps: the new tree's leaves come from the old
/// tree or from the replacement, all of the replacement's leaves are in it,
/// and valid ratios stay valid.
pub proof fn lemma_replace_leaf(t: LayoutNode, target: usize, with: LayoutNode)
    requires
        t.leaves().contains(target),
    ensures
        forall|x: usize| #[trigger]
            t.replace_leaf(target, with).leaves().contains(x) ==> t.leaves().contains(x)
                || with.leaves().contains(x),
        forall|x: usize| #[trigger]
            with.leaves().contains(x) ==> t.replace_leaf(target, with).leaves().contains(x),
        t.ratios_wf() && with.ratios_wf() ==> t.replace_leaf(target, with).ratios_wf(),
    decreases t,
{
    match t {
        LayoutNode::Window(id) => {
            assert(t.leaves() =~= seq![id]);
            assert(t.leaves()[0] == id);
        },
        LayoutNode::Split { direction, ratio, first, second } => {
            lemma_concat_contains(first.leaves(), second.leaves(), target);
            let n = t.replace_leaf(target, with);
            if first.leaves().contains(target) {
                lemma_replace_leaf(*first, target, with);
                let f2 = first.replace_leaf(target, with);
                assert forall|x: usize| #[trigger] n.leaves().contains(x) implies t.leaves().contains(x)
                    || with.leaves().contains(x) by {
                    lemma_concat_contains(f2.leaves(), second.leaves(), x);
                    lemma_concat_contains(first.leaves(), second.leaves(), x);
                }
                assert forall|x: usize| #[trigger] with.leaves().contains(x) implies n.leaves().contains(x) by {
                    lemma_concat_contains(f2.leaves(), second.leaves(), x);
                }
            } else {
                lemma_replace_leaf(*second, target, with);
                let s2 = second.replace_leaf(target, with);
                assert forall|x: usize| #[trigger] n.leaves().contains(x) implies t.leaves().contains(x)
                    || with.leaves().contains(x) by {
                    lemma_concat_contains(first.leaves(), s2.leaves(), x);
                    lemma_concat_contains(first.leaves(), second.leaves(), x);
                }
                assert forall|x: usize| #[trigger] with.leaves().contains(x) implies n.leaves().contains(x) by {
                    lemma_concat_contains(first.leaves(), s2.leaves(), x);
                }
            }
        },
    }
}

/// Where a window is drawn, and whether it shows the focus.
#[derive(Clone, Copy, Debug, PartialEq, Eq, Structural)]
pub struct Placement {
    pub id: usize,
    pub area: Area,
    pub focused: bool,
}

/// A binary tree of windows: a leaf names a window, a split divides its
/// area between two subtrees.
#[derive(Debug, PartialEq, Eq)]
pub enum LayoutNode {
    Window(usize),
    Split { direction: Direction, ratio: Ratio, first: Box<LayoutNode>, second: Box<LayoutNode> },
}

impl LayoutNode {
    /// The window ids of the leaves, depth first, first child before second.
    pub open spec fn leaves(self) -> Seq<usize>
        decreases self,
    {
        match self {
            LayoutNode::Window(id) => seq![id],
            LayoutNode::Split { first, second, .. } => first.leaves() + second.leaves(),
        }
    }

    /// An even split of `old_id`'s leaf, with `new_id` as the second child.
    pub open spec fn even_split(direction: Direction, old_id: usize, new_id: usize) -> LayoutNode {
        LayoutNode::Split {
            direction,
            ratio: Ratio { num: 1, den: 2 },
            first: Box::new(LayoutNode::Window(old_id)),
            second: Box::new(LayoutNode::Window(new_id)),
        }
    }

    /// Every split's ratio lies strictly between 0 and 1.
    pub open spec fn ratios_wf(self) -> bool
        decreases self,
    {
        match self {
            LayoutNode::Window(_) => true,
            LayoutNode::Split { ratio, first, second, .. } => ratio.wf() && first.ratios_wf()
                && second.ratios_wf(),
        }
    }

    /// The tree with the first leaf that names `target` replaced by `with`.
    pub open spec fn replace_leaf(self, target: usize, with: LayoutNode) -> LayoutNode
        decreases self,
    {
        match self {
            LayoutNode::Window(id) => if id == target {
                with
            } else {
                self
            },
            LayoutNode::Split { direction, ratio, first, second } => if first.leaves().contains(
                target,
            ) {
                LayoutNode::Split {
                    direction,
                    ratio,
                    first: Box::new(first.replace_leaf(target, with)),
                    second,
                }
            } else {
                LayoutNode::Split {
                    direction,
                    ratio,
                    first,
                    second: Box::new(second.replace_leaf(target, with)),
                }
            },
        }
    }

    /// The placements of the leaves when the tree fills `area`; a leaf shows
    /// the focus when it names `focus`.
    pub open spec fn placements(self, area: Area, focus: Option<usize>) -> Seq<Placement>
        decreases self,
    {
        match self {
            LayoutNode::Window(id) => seq![Placement { id, area, focused: focus == Some(id) }],
            LayoutNode::Split { direction, ratio, first, second } => {
                let parts = split_parts(direction, ratio, area);
                first.placements(parts.0, focus) + second.placements(parts.1, focus)
            },
        }
    }

    /// Whether some leaf names `target`.
    pub fn has_leaf(&self, target: usize) -> (r: bool)
        ensures
            r == self.leaves().contains(target),
        decreases self,
    {
        match self {
            LayoutNode::Window(id) => {
                assert(self.leaves() =~= seq![*id]);
                assert(self.leaves()[0] == *id);
                *id == target
            },
            LayoutNode::Split { first, second, .. } => {
                let r = first.has_leaf(target) || second.has_leaf(target);
                proof {
                    lemma_concat_contains(first.leaves(), second.leaves(), target);
                }
                r
            },
        }
    }

    /// Replaces the first leaf that names `target` by `with`.
    pub fn replace_first_leaf(self, target: usize, with: LayoutNode) -> (r: LayoutNode)
        requires
            self.leaves().contains(target),
        ensures
            r == self.replace_leaf(target, with),
        decreases self,
    {
        match self {
            LayoutNode::Window(id) => {
                assert(self.leaves() =~= seq![id]);
                assert(self.leaves()[0] == id);
                with
            },
            LayoutNode::Split { direction, ratio, first, second } => {
                if first.has_leaf(target) {
                    let first = (*first).replace_first_leaf(target, with);
                    LayoutNode::Split { direction, ratio, first: Box::new(first), second }
                } else {
                    proof {
                        let (a, b) = (first.leaves(), second.leaves());
                        let i = choose|i: int| 0 <= i < (a + b).len() && (a + b)[i] == target;
                        assert(b[i - a.len()] == target);
                    }
                    let second = (*second).replace_first_leaf(target, with);
                    LayoutNode::Split { direction, ratio, first, second: Box::new(second) }
                }
            },
        }
    }

    /// Appends the placements of the leaves when the tree fills `area`.
    pub fn place(&self, area: Area, focus: Option<usize>, out: &mut Vec<Placement>)
        requires
            self.ratios_wf(),
        ensures
            final(out)@ == old(out)@ + self.placements(area, focus),
        decreases self,
    {
        match self {
            LayoutNode::Window(id) => {
                let focused = match focus {
                    Some(f) => f == *id,
                    None => false,
                };
                out.push(Placement { id: *id, area, focused });
            },
            LayoutNode::Split { direction, ratio, first, second } => {
                let (a, b) = split_by_ratio(*direction, *ratio, area);
                first.place(a, focus, out);
                second.place(b, focus, out);
                assert(final(out)@ =~= old(out)@ + self.placements(area, focus));
            },
        }
    }
}

} // verus!
