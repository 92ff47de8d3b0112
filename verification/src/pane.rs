//! The layout of panes in a window: a tree of splits with a pane at each
//! leaf.
use vstd::prelude::*;

verus! {

#[derive(Debug, Clone, Copy, PartialEq, Eq, Structural)]
pub enum SplitDirection {
    Horizontal,
    Vertical,
}

/// A pane of the layout: its number, and whether it was the active one when
/// it was made or last split.
#[derive(Debug, Clone, Copy, PartialEq, Eq, Structural)]
pub struct PaneSlot {
    pub id: u32,
    pub active: bool,
}

/// Layout tree node. A split shares its area between its two sides in
/// halves.
#[derive(Debug)]
pub enum LayoutNode {
    Leaf(PaneSlot),
    Split { direction: SplitDirection, first: Box<LayoutNode>, second: Box<LayoutNode> },
}

pub struct PaneManager {
    pub root: LayoutNode,
    pub next_id: u32,
    pub active_id: u32,
}

/// The panes of a layout, first sides before second ones.
pub open spec fn leaves(node: LayoutNode) -> Seq<PaneSlot>
    decreases node,
{
    match node {
        LayoutNode::Leaf(slot) => seq![slot],
        LayoutNode::Split { direction, first, second } => leaves(*first) + leaves(*second),
    }
}

/// The layout with every pane numbered `target` split in direction
/// `direction`: the pane, no longer marked active, becomes the first side,
/// and a new active pane numbered `new_id` the second.
pub open spec fn split_at(
    node: LayoutNode,
    target: u32,
    new_id: u32,
    direction: SplitDirection,
) -> LayoutNode
    decreases node,
{
    match node {
        LayoutNode::Leaf(slot) => if slot.id == target {
            LayoutNode::Split {
                direction,
                first: Box::new(LayoutNode::Leaf(PaneSlot { id: slot.id, active: false })),
                second: Box::new(LayoutNode::Leaf(PaneSlot { id: new_id, active: true })),
            }
        } else {
            node
        },
        LayoutNode::Split { direction: d, first, second } => LayoutNode::Split {
            direction: d,
            first: Box::new(split_at(*first, target, new_id, direction)),
            second: Box::new(split_at(*second, target, new_id, direction)),
        },
    }
}

/// The number of panes numbered `id`.
pub open spec fn count_of(slots: Seq<PaneSlot>, id: u32) -> nat
    decreases slots.len(),
{
    if slots.len() == 0 {
        0
    } else {
        count_of(slots.drop_last(), id) + if slots.last().id == id {
            1nat
        } else {
            0nat
        }
    }
}

proof fn lemma_count_of_add(a: Seq<PaneSlot>, b: Seq<PaneSlot>, id: u32)
    ensures
        count_of(a + b, id) == count_of(a, id) + count_of(b, id),
    decreases b.len(),
{
    if b.len() == 0 {
        assert(a + b =~= a);
    } else {
        assert((a + b).drop_last() =~= a + b.drop_last());
        lemma_count_of_add(a, b.drop_last(), id);
    }
}

/// A split adds one pane for each pane that it splits.
pub proof fn lemma_split_adds(node: LayoutNode, target: u32, new_id: u32, direction: SplitDirection)
    ensures
        leaves(split_at(node, target, new_id, direction)).len() == leaves(node).len() + count_of(
            leaves(node),
            target,
        ),
    decreases node,
{
    match node {
        LayoutNode::Leaf(slot) => {
            let one = seq![slot];
            assert(leaves(node) == one);
            assert(one.drop_last() =~= Seq::<PaneSlot>::empty());
            assert(one.last() == slot);
            assert(count_of(one.drop_last(), target) == 0);
            assert(count_of(one, target) == if slot.id == target {
                1nat
            } else {
                0nat
            });
            if slot.id == target {
                let a = seq![PaneSlot { id: slot.id, active: false }];
                let b = seq![PaneSlot { id: new_id, active: true }];
                reveal_with_fuel(leaves, 3);
                assert(leaves(split_at(node, target, new_id, direction)) == a + b);
            }
        },
        LayoutNode::Split { direction: d, first, second } => {
            lemma_split_adds(*first, target, new_id, direction);
            lemma_split_adds(*second, target, new_id, direction);
            lemma_count_of_add(leaves(*first), leaves(*second), target);
        },
    }
}

fn split_node(node: LayoutNode, target_id: u32, new_id: u32, direction: SplitDirection) -> (r:
    LayoutNode)
    ensures
        r == split_at(node, target_id, new_id, direction),
    decreases node,
{
    match node {
        LayoutNode::Leaf(slot) => {
            if slot.id == target_id {
                LayoutNode::Split {
                    direction,
                    first: Box::new(LayoutNode::Leaf(PaneSlot { id: slot.id, active: false })),
                    second: Box::new(LayoutNode::Leaf(PaneSlot { id: new_id, active: true })),
                }
            } else {
                LayoutNode::Leaf(slot)
            }
        },
        LayoutNode::Split { direction: d, first, second } => LayoutNode::Split {
            direction: d,
            first: Box::new(split_node(*first, target_id, new_id, direction)),
            second: Box::new(split_node(*second, target_id, new_id, direction)),
        },
    }
}

fn collect(node: &LayoutNode, out: &mut Vec<PaneSlot>)
    ensures
        final(out)@ == old(out)@ + leaves(*node),
    decreases node,
{
    match node {
        LayoutNode::Leaf(slot) => {
            out.push(*slot);
            assert(out@ =~= old(out)@ + leaves(*node));
        },
        LayoutNode::Split { direction, first, second } => {
            collect(first, out);
            collect(second, out);
            assert(out@ =~= old(out)@ + leaves(*node));
        },
    }
}

impl PaneManager {
    /// A layout of one pane, numbered 1, which is active.
    pub fn new() -> (m: PaneManager)
        ensures
            m.root == LayoutNode::Leaf(PaneSlot { id: 1, active: true }),
            m.next_id == 2,
            m.active_id == 1,
    {
        PaneManager {
            root: LayoutNode::Leaf(PaneSlot { id: 1, active: true }),
            next_id: 2,
            active_id: 1,
        }
    }

    /// Split the active pane. The new pane gets the next number and becomes
    /// the active one.
    pub fn split(&mut self, direction: SplitDirection) -> (new_id: u32)
        requires
            old(self).next_id < u32::MAX,
        ensures
            new_id == old(self).next_id,
            final(self).next_id == new_id + 1,
            final(self).active_id == new_id,
            final(self).root == split_at(old(self).root, old(self).active_id, new_id, direction),
    {
        let new_id = self.next_id;
        self.next_id += 1;
        let mut root = LayoutNode::Leaf(PaneSlot { id: 0, active: false });
        core::mem::swap(&mut self.root, &mut root);
        self.root = split_node(root, self.active_id, new_id, direction);
        self.active_id = new_id;
        new_id
    }

    /// The panes, first sides before second ones.
    pub fn slots(&self) -> (out: Vec<PaneSlot>)
        ensures
            out@ == leaves(self.root),
    {
        let mut out: Vec<PaneSlot> = Vec::new();
        collect(&self.root, &mut out);
        out
    }

    /// Focus a specific pane.
    pub fn focus(&mut self, id: u32)
        ensures
            final(self).active_id == id,
            final(self).root == old(self).root,
            final(self).next_id == old(self).next_id,
    {
        self.active_id = id;
    }

    /// Get active pane ID.
    pub fn active(&self) -> (id: u32)
        ensures
            id == self.active_id,
    {
        self.active_id
    }

    /// Count total panes.
    pub fn count(&self) -> (n: usize)
        ensures
            n == leaves(self.root).len(),
    {
        self.slots().len()
    }
}

} // verus!
