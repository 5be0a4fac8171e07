//! The split-pane layout tree that is persisted between runs: a binary tree
//! of splits whose leaves are editing panes, with each split's ratio kept
//! in thousandths of the available space.
use vstd::prelude::*;

verus! {

/// The direction a split divides its space in.
#[derive(Clone, Copy, Debug, PartialEq, Eq, Structural)]
pub enum Axis {
    Horizontal,
    Vertical,
}

/// A split ratio covers the whole space in steps of one thousandth.
pub const RATIO_UNIT: u16 = 1000;

/// The layout tree: a split carries its axis, its ratio in thousandths,
/// and the two subtrees; a leaf is one editing pane.
#[derive(Debug)]
pub enum Pane {
    Split { axis: Axis, ratio: u16, a: Box<Pane>, b: Box<Pane> },
    Empty,
}

impl Clone for Pane {
    fn clone(&self) -> (r: Self)
        ensures
            r == *self,
        decreases *self,
    {
        match self {
            Pane::Empty => Pane::Empty,
            Pane::Split { axis, ratio, a, b } => Pane::Split {
                axis: *axis,
                ratio: *ratio,
                a: Box::new((**a).clone()),
                b: Box::new((**b).clone()),
            },
        }
    }
}

impl Pane {
    /// Every split's ratio lies within the unit.
    pub open spec fn well_formed(self) -> bool
        decreases self,
    {
        match self {
            Pane::Split { ratio, a, b, .. } => ratio <= RATIO_UNIT && a.well_formed()
                && b.well_formed(),
            Pane::Empty => true,
        }
    }

    /// How many panes the tree holds: its number of leaves.
    pub open spec fn spec_leaves(self) -> nat
        decreases self,
    {
        match self {
            Pane::Split { a, b, .. } => a.spec_leaves() + b.spec_leaves(),
            Pane::Empty => 1,
        }
    }

    /// Checks that every split's ratio lies within the unit.
    pub fn is_well_formed(&self) -> (r: bool)
        ensures
            r == self.well_formed(),
        decreases *self,
    {
        match self {
            Pane::Empty => true,
            Pane::Split { ratio, a, b, .. } => *ratio <= RATIO_UNIT && a.is_well_formed()
                && b.is_well_formed(),
        }
    }

    /// Counts the panes.
    pub fn leaves(&self) -> (n: usize)
        requires
            self.spec_leaves() <= usize::MAX,
        ensures
            n == self.spec_leaves(),
        decreases *self,
    {
        match self {
            Pane::Empty => 1,
            Pane::Split { a, b, .. } => {
                let na = a.leaves();
                let nb = b.leaves();
                na + nb
            },
        }
    }

    /// The tree with leaf number `index` (counting left to right from zero)
    /// split in two along `axis` at `ratio`; an index past the last leaf
    /// splits the rightmost one.
    pub open spec fn spec_split_at(self, index: int, axis: Axis, ratio: u16) -> Pane
        decreases self,
    {
        match self {
            Pane::Empty => Pane::Split {
                axis,
                ratio,
                a: Box::new(Pane::Empty),
                b: Box::new(Pane::Empty),
            },
            Pane::Split { axis: split_axis, ratio: split_ratio, a, b } => {
                if index < a.spec_leaves() {
                    Pane::Split {
                        axis: split_axis,
                        ratio: split_ratio,
                        a: Box::new(a.spec_split_at(index, axis, ratio)),
                        b,
                    }
                } else {
                    Pane::Split {
                        axis: split_axis,
                        ratio: split_ratio,
                        a,
                        b: Box::new(b.spec_split_at(index - a.spec_leaves(), axis, ratio)),
                    }
                }
            },
        }
    }

    /// Splits leaf number `index` in two along `axis` at `ratio`.
    pub fn split_at(self, index: usize, axis: Axis, ratio: u16) -> (r: Pane)
        requires
            self.spec_leaves() <= usize::MAX,
        ensures
            r == self.spec_split_at(index as int, axis, ratio),
        decreases self,
    {
        match self {
            Pane::Empty => Pane::Split {
                axis,
                ratio,
                a: Box::new(Pane::Empty),
                b: Box::new(Pane::Empty),
            },
            Pane::Split { axis: split_axis, ratio: split_ratio, a, b } => {
                let left_leaves = a.leaves();
                if index < left_leaves {
                    Pane::Split {
                        axis: split_axis,
                        ratio: split_ratio,
                        a: Box::new((*a).split_at(index, axis, ratio)),
                        b,
                    }
                } else {
                    Pane::Split {
                        axis: split_axis,
                        ratio: split_ratio,
                        a,
                        b: Box::new((*b).split_at(index - left_leaves, axis, ratio)),
                    }
                }
            },
        }
    }

    /// The tree with leaf number `index` closed: the leaf disappears and
    /// its sibling takes the whole split's place. A tree of one leaf is
    /// left as it is.
    pub open spec fn spec_close_at(self, index: int) -> Pane
        decreases self,
    {
        match self {
            Pane::Empty => Pane::Empty,
            Pane::Split { axis, ratio, a, b } => {
                if index < a.spec_leaves() {
                    if a.spec_leaves() == 1 {
                        *b
                    } else {
                        Pane::Split { axis, ratio, a: Box::new(a.spec_close_at(index)), b }
                    }
                } else {
                    if b.spec_leaves() == 1 {
                        *a
                    } else {
                        Pane::Split {
                            axis,
                            ratio,
                            a,
                            b: Box::new(b.spec_close_at(index - a.spec_leaves())),
                        }
                    }
                }
            },
        }
    }

    /// Closes leaf number `index`; its sibling takes the split's place.
    pub fn close_at(self, index: usize) -> (r: Pane)
        requires
            self.spec_leaves() <= usize::MAX,
        ensures
            r == self.spec_close_at(index as int),
        decreases self,
    {
        match self {
            Pane::Empty => Pane::Empty,
            Pane::Split { axis, ratio, a, b } => {
                let left_leaves = a.leaves();
                if index < left_leaves {
                    if left_leaves == 1 {
                        *b
                    } else {
                        Pane::Split { axis, ratio, a: Box::new((*a).close_at(index)), b }
                    }
                } else {
                    let right_leaves = b.leaves();
                    if right_leaves == 1 {
                        *a
                    } else {
                        Pane::Split {
                            axis,
                            ratio,
                            a,
                            b: Box::new((*b).close_at(index - left_leaves)),
                        }
                    }
                }
            },
        }
    }
}

/// A tree always holds at least one pane.
pub proof fn lemma_leaves_at_least_one(p: Pane)
    ensures
        p.spec_leaves() >= 1,
    decreases p,
{
    match p {
        Pane::Split { a, b, .. } => {
            lemma_leaves_at_least_one(*a);
            lemma_leaves_at_least_one(*b);
        },
        Pane::Empty => {},
    }
}

/// Splitting a pane adds exactly one pane and, when the new ratio lies
/// within the unit, keeps the tree well formed.
pub proof fn lemma_split_at(p: Pane, index: int, axis: Axis, ratio: u16)
    requires
        ratio <= RATIO_UNIT,
    ensures
        p.spec_split_at(index, axis, ratio).spec_leaves() == p.spec_leaves() + 1,
        p.well_formed() ==> p.spec_split_at(index, axis, ratio).well_formed(),
    decreases p,
{
    match p {
        Pane::Split { a, b, .. } => {
            if index < a.spec_leaves() {
                lemma_split_at(*a, index, axis, ratio);
            } else {
                lemma_split_at(*b, index - a.spec_leaves(), axis, ratio);
            }
        },
        Pane::Empty => {},
    }
}

/// Closing a pane in a tree of more than one removes exactly one pane, and
/// a well-formed tree stays well formed.
pub proof fn lemma_close_at(p: Pane, index: int)
    requires
        p.spec_leaves() > 1,
    ensures
        p.spec_close_at(index).spec_leaves() == p.spec_leaves() - 1,
        p.well_formed() ==> p.spec_close_at(index).well_formed(),
    decreases p,
{
    match p {
        Pane::Split { a, b, .. } => {
            lemma_leaves_at_least_one(*a);
            lemma_leaves_at_least_one(*b);
            if index < a.spec_leaves() {
                if a.spec_leaves() > 1 {
                    lemma_close_at(*a, index);
                }
            } else {
                if b.spec_leaves() > 1 {
                    lemma_close_at(*b, index - a.spec_leaves());
                }
            }
        },
        Pane::Empty => {},
    }
}

} // verus!
