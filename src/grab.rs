use vstd::prelude::*;
use crate::distribution::{lemma_zero_move_is_identity, pair_accepts, resized_sizes, single_minimum};
use crate::layout::{LayoutTree, NodeId, Orientation, TreeView};

verus! {

/// When a pointer grab ends.
#[derive(Clone, Copy, Debug, PartialEq, Eq, Structural)]
pub enum ReleaseMode {
    /// Once no mouse button is held any more.
    NoMouseButtons,
    /// On the next button press.
    Click,
}

/// The device event that started a grab.
#[derive(Clone, Copy, Debug, PartialEq, Eq, Structural)]
pub enum GrabStartData {
    Pointer { button: u32 },
    Touch { slot: i32 },
}

/// What a motion event did to the tree, and what the caller owes in return.
#[derive(Clone, Copy, Debug, PartialEq, Eq, Structural)]
pub enum MotionOutcome {
    /// The sizes changed: the caller recomputes the geometry of the output.
    Resized,
    /// No geometry change to propagate; the grab goes on.
    Unchanged,
    /// The dragged fork is gone: the caller ends the grab.
    Ungrab,
}

/// The cursor shown over a resize affordance.
#[derive(Clone, Copy, Debug, PartialEq, Eq, Structural)]
pub enum ResizeCursor {
    RowResize,
    ColResize,
}

/// The left mouse button, which starts a resize.
pub const BTN_LEFT: u32 = 0x110;

/// A resize affordance: the boundary after child `left_up_idx` of the group `node`.
#[derive(Clone, Copy, Debug, PartialEq, Eq, Structural)]
pub struct ResizeForkTarget {
    pub node: NodeId,
    pub left_up_idx: usize,
    pub orientation: Orientation,
}

/// An interactive resize of one fork, driven by pointer or touch motion.
///
/// The grab keeps a snapshot of the tree. Each motion event either replays the
/// whole drag so far against that snapshot, when the live tree still has the
/// snapshot's shape, or takes the live tree as the new snapshot and restarts
/// the drag from there.
#[derive(Debug)]
pub struct ResizeForkGrab {
    pub start_data: GrabStartData,
    pub old_tree: Option<LayoutTree>,
    pub accumulated_delta: i64,
    pub accumulated_delta_parent: i64,
    pub node: NodeId,
    pub left_up_idx: usize,
    pub parent_left_up_idx: Option<usize>,
    pub orientation: Orientation,
    pub release: ReleaseMode,
    pub active: bool,
}

/// `a + d`, held within the range of `i64`.
pub open spec fn saturating_sum(a: int, d: int) -> int {
    if a + d > i64::MAX {
        i64::MAX as int
    } else if a + d < i64::MIN {
        i64::MIN as int
    } else {
        a + d
    }
}

/// The part of a displacement along the fork's own axis.
pub open spec fn own_axis(orientation: Orientation, dx: int, dy: int) -> int {
    match orientation {
        Orientation::Horizontal => dy,
        Orientation::Vertical => dx,
    }
}

/// The part of a displacement along the parent fork's axis.
pub open spec fn parent_axis(orientation: Orientation, dx: int, dy: int) -> int {
    match orientation {
        Orientation::Horizontal => dx,
        Orientation::Vertical => dy,
    }
}

pub open spec fn snapshot_view(snapshot: Option<LayoutTree>) -> Option<TreeView> {
    match snapshot {
        Some(t) => Some(t@),
        None => None,
    }
}

/// Whether a motion event replays the drag against the snapshot: there is one,
/// and the live tree has its shape.
pub open spec fn replays(snapshot: Option<TreeView>, live: TreeView) -> bool {
    snapshot matches Some(s) && s.pre_order() == live.pre_order()
}

/// The tree against which a motion event replays the drag: the snapshot, if
/// the live tree still has its shape; the live tree otherwise.
pub open spec fn replay_base(snapshot: Option<TreeView>, live: TreeView) -> TreeView {
    if replays(snapshot, live) {
        snapshot->Some_0
    } else {
        live
    }
}

/// Whether a motion event discards the displacement so far: the live tree
/// changed shape since the snapshot was taken.
pub open spec fn rebases(snapshot: Option<TreeView>, live: TreeView) -> bool {
    snapshot is Some && !replays(snapshot, live)
}

/// The fork still exists: `node` is a group with children and sizes at `i` and `i + 1`.
pub open spec fn fork_alive(t: TreeView, node: NodeId, i: int) -> bool {
    &&& t.contains(node)
    &&& i + 1 < t.node(node).children.len()
    &&& t.group_sizes(node) matches Some(s) && i + 1 < s.len()
}

/// The pair at `i` of the group `id` can be redistributed without leaving `i32`.
pub open spec fn pair_fits(t: TreeView, id: NodeId, i: int) -> bool {
    t.group_sizes(id) matches Some(s) && 0 <= i && i + 1 < s.len() && s[i] + s[i + 1] <= i32::MAX
}

/// Whether the pair at `i` of the group `id` is redistributed at all.
pub open spec fn pair_resizes(t: TreeView, id: NodeId, i: int) -> bool {
    pair_fits(t, id, i) && pair_accepts(
        t.group_sizes(id)->Some_0[i] as int,
        t.group_sizes(id)->Some_0[i + 1] as int,
        t.group_orientation(id)->Some_0,
    )
}

/// What a motion event reports, given the tree it replays against.
pub open spec fn motion_outcome(base: TreeView, node: NodeId, i: int) -> MotionOutcome {
    if !fork_alive(base, node, i) {
        MotionOutcome::Ungrab
    } else if !pair_resizes(base, node, i) {
        MotionOutcome::Unchanged
    } else {
        MotionOutcome::Resized
    }
}

/// Whether the parent's fork at `parent_idx` is resized along with the fork of `node`:
/// the parent is a group of the other orientation whose pair accepts the move.
pub open spec fn parent_resizes(t: TreeView, node: NodeId, parent_idx: Option<usize>) -> bool {
    &&& parent_idx is Some
    &&& t.node(node).parent matches Some(p)
    &&& t.group_orientation(p) matches Some(po)
    &&& po != t.group_orientation(node)->Some_0
    &&& pair_resizes(t, p, parent_idx->Some_0 as int)
}

/// The tree after a resized motion event: the fork of `node` moved by `delta`,
/// and the parent's fork by `parent_delta` where that applies.
pub open spec fn resized_tree(
    base: TreeView,
    node: NodeId,
    i: int,
    parent_idx: Option<usize>,
    delta: int,
    parent_delta: int,
) -> TreeView {
    let t = base.with_pair_resized(node, i, delta);
    if parent_resizes(t, node, parent_idx) {
        t.with_pair_resized(t.node(node).parent->Some_0, parent_idx->Some_0 as int, parent_delta)
    } else {
        t
    }
}

/// What one motion event does to a grab and its tree, `old` and `old_tree`
/// before, `new` and `new_tree` after, when it reports `r`.
///
/// While the output is gone, or after the grab has ended, nothing changes.
/// Otherwise the live tree is compared with the snapshot: if it has the
/// snapshot's shape, it is reset to the snapshot and the whole displacement of
/// the drag is replayed on it; if not, it becomes the new snapshot and the
/// displacement so far is dropped, so that only this event's displacement
/// counts. The grab ends, leaving the tree as that comparison left it, once the
/// fork is gone.
pub open spec fn motion_effect(
    old: ResizeForkGrab,
    old_tree: TreeView,
    output_alive: bool,
    dx: i64,
    dy: i64,
    r: MotionOutcome,
    new: ResizeForkGrab,
    new_tree: TreeView,
) -> bool {
    if !(old.active && output_alive) {
        &&& r == MotionOutcome::Unchanged
        &&& new_tree == old_tree
        &&& snapshot_view(new.old_tree) == snapshot_view(old.old_tree)
        &&& new.accumulated_delta == old.accumulated_delta
        &&& new.accumulated_delta_parent == old.accumulated_delta_parent
        &&& new.active == old.active
    } else {
        let snapshot = snapshot_view(old.old_tree);
        let base = replay_base(snapshot, old_tree);
        let rebased = rebases(snapshot, old_tree);
        let start = if rebased { 0 } else { old.accumulated_delta as int };
        let start_parent = if rebased { 0 } else { old.accumulated_delta_parent as int };
        let moved = base.contains(old.node);
        let delta = if moved {
            saturating_sum(start, own_axis(old.orientation, dx as int, dy as int))
        } else {
            start
        };
        let parent_delta = if moved {
            saturating_sum(start_parent, parent_axis(old.orientation, dx as int, dy as int))
        } else {
            start_parent
        };
        &&& snapshot_view(new.old_tree) == Some(base)
        &&& new.accumulated_delta == delta
        &&& new.accumulated_delta_parent == parent_delta
        &&& r == motion_outcome(base, old.node, old.left_up_idx as int)
        &&& new.active == (r != MotionOutcome::Ungrab)
        &&& new_tree == if r == MotionOutcome::Resized {
            resized_tree(base, old.node, old.left_up_idx as int, old.parent_left_up_idx, delta, parent_delta)
        } else {
            base
        }
    }
}

/// Both children of the pair at `i` of the group `id` are at or above their minimum.
pub open spec fn pair_above_minimum(t: TreeView, id: NodeId, i: int) -> bool {
    let s = t.group_sizes(id)->Some_0;
    let min = single_minimum(t.group_orientation(id)->Some_0);
    s[i] >= min && s[i + 1] >= min
}

/// A drag whose displacement adds up to zero, on both axes, gives back the
/// tree it replays against, as long as the dragged pairs are at or above
/// their minimum there.
pub proof fn lemma_zero_displacement_restores(base: TreeView, node: NodeId, i: int, parent_idx: Option<usize>)
    requires
        pair_resizes(base, node, i),
        pair_above_minimum(base, node, i),
        parent_resizes(base, node, parent_idx) ==> pair_above_minimum(
            base,
            base.node(node).parent->Some_0,
            parent_idx->Some_0 as int,
        ),
    ensures
        resized_tree(base, node, i, parent_idx, 0, 0) == base,
{
    lemma_pair_at_rest(base, node, i);
    let t = base.with_pair_resized(node, i, 0);
    if parent_resizes(t, node, parent_idx) {
        let p = t.node(node).parent->Some_0;
        lemma_pair_at_rest(t, p, parent_idx->Some_0 as int);
    }
}

/// A motion event that replays against the snapshot, with the drag's
/// displacement adding up to zero on both axes, leaves the live tree equal to
/// the snapshot, whatever motion came before, as long as the dragged pairs are
/// at or above their minimum in the snapshot.
pub proof fn lemma_zero_net_drag_restores_snapshot(
    old: ResizeForkGrab,
    old_tree: TreeView,
    dx: i64,
    dy: i64,
    r: MotionOutcome,
    new: ResizeForkGrab,
    new_tree: TreeView,
)
    requires
        motion_effect(old, old_tree, true, dx, dy, r, new, new_tree),
        old.active,
        replays(snapshot_view(old.old_tree), old_tree),
        old.accumulated_delta + own_axis(old.orientation, dx as int, dy as int) == 0,
        old.accumulated_delta_parent + parent_axis(old.orientation, dx as int, dy as int) == 0,
        pair_resizes(snapshot_view(old.old_tree)->Some_0, old.node, old.left_up_idx as int) ==> pair_above_minimum(
            snapshot_view(old.old_tree)->Some_0,
            old.node,
            old.left_up_idx as int,
        ),
        parent_resizes(snapshot_view(old.old_tree)->Some_0, old.node, old.parent_left_up_idx)
            ==> pair_above_minimum(
            snapshot_view(old.old_tree)->Some_0,
            snapshot_view(old.old_tree)->Some_0.node(old.node).parent->Some_0,
            old.parent_left_up_idx->Some_0 as int,
        ),
    ensures
        new_tree == snapshot_view(old.old_tree)->Some_0,
{
    let base = snapshot_view(old.old_tree)->Some_0;
    if r == MotionOutcome::Resized {
        lemma_zero_displacement_restores(base, old.node, old.left_up_idx as int, old.parent_left_up_idx);
    }
}

/// A motion event that finds the live tree changed in shape since the
/// snapshot drops the displacement so far: the live tree becomes the
/// snapshot, and the accumulated displacement is this event's alone.
pub proof fn lemma_shape_change_restarts_drag(
    old: ResizeForkGrab,
    old_tree: TreeView,
    dx: i64,
    dy: i64,
    r: MotionOutcome,
    new: ResizeForkGrab,
    new_tree: TreeView,
)
    requires
        motion_effect(old, old_tree, true, dx, dy, r, new, new_tree),
        old.active,
        old.old_tree matches Some(snapshot) && snapshot@.pre_order() != old_tree.pre_order(),
        old_tree.contains(old.node),
    ensures
        snapshot_view(new.old_tree) == Some(old_tree),
        new.accumulated_delta == own_axis(old.orientation, dx as int, dy as int),
        new.accumulated_delta_parent == parent_axis(old.orientation, dx as int, dy as int),
{
}

/// Resizing a pair that is at or above its minimum by zero changes nothing.
proof fn lemma_pair_at_rest(t: TreeView, id: NodeId, i: int)
    requires
        pair_fits(t, id, i),
        pair_above_minimum(t, id, i),
    ensures
        t.with_pair_resized(id, i, 0) == t,
{
    let s = t.group_sizes(id)->Some_0;
    let o = t.group_orientation(id)->Some_0;
    lemma_zero_move_is_identity(s[i] as int, s[i + 1] as int, o);
    assert(resized_sizes(s, i, o, 0) =~= s);
    assert(t.with_pair_resized(id, i, 0).nodes =~= t.nodes);
}

fn add_saturating(a: i64, d: i64) -> (r: i64)
    ensures
        r == saturating_sum(a as int, d as int),
{
    let s = a as i128 + d as i128;
    if s > i64::MAX as i128 {
        i64::MAX
    } else if s < i64::MIN as i128 {
        i64::MIN
    } else {
        s as i64
    }
}

/// Whether the pair at `i` of the group `id` can be redistributed without leaving `i32`.
fn fits(tree: &LayoutTree, id: NodeId, i: usize) -> (r: bool)
    ensures
        r == pair_fits(tree@, id, i as int),
{
    match tree.group_sizes(id) {
        Some(s) => s.len() >= 2 && i <= s.len() - 2 && s[i] as i64 + s[i + 1] as i64 <= i32::MAX as i64,
        None => false,
    }
}

impl ResizeForkTarget {
    /// The cursor to show while the pointer is over this affordance.
    pub fn cursor(&self) -> (r: ResizeCursor)
        ensures
            r == (match self.orientation {
                Orientation::Horizontal => ResizeCursor::RowResize,
                Orientation::Vertical => ResizeCursor::ColResize,
            }),
    {
        match self.orientation {
            Orientation::Horizontal => ResizeCursor::RowResize,
            Orientation::Vertical => ResizeCursor::ColResize,
        }
    }

    /// The grab that a button event on this affordance starts: one for a press
    /// of the left button, none for anything else.
    pub fn button(&self, button: u32, pressed: bool) -> (r: Option<ResizeForkGrab>)
        ensures
            r is Some <==> (button == BTN_LEFT && pressed),
            r matches Some(g) ==> g.is_fresh(GrabStartData::Pointer { button }, *self),
    {
        if button == BTN_LEFT && pressed {
            Some(self.start_grab(GrabStartData::Pointer { button }))
        } else {
            None
        }
    }

    /// The grab that a touch going down on this affordance starts.
    pub fn down(&self, slot: i32) -> (r: ResizeForkGrab)
        ensures
            r.is_fresh(GrabStartData::Touch { slot }, *self),
    {
        self.start_grab(GrabStartData::Touch { slot })
    }

    fn start_grab(&self, start_data: GrabStartData) -> (r: ResizeForkGrab)
        ensures
            r.is_fresh(start_data, *self),
    {
        ResizeForkGrab::new(
            start_data,
            self.node,
            self.left_up_idx,
            None,
            self.orientation,
            ReleaseMode::NoMouseButtons,
        )
    }
}

impl ResizeForkGrab {
    /// A grab just started from `target`: it resizes one dimension only and
    /// ends once no button is held.
    pub open spec fn is_fresh(&self, start_data: GrabStartData, target: ResizeForkTarget) -> bool {
        &&& self.start_data == start_data
        &&& self.old_tree is None
        &&& self.accumulated_delta == 0
        &&& self.accumulated_delta_parent == 0
        &&& self.node == target.node
        &&& self.left_up_idx == target.left_up_idx
        &&& self.parent_left_up_idx is None
        &&& self.orientation == target.orientation
        &&& self.release == ReleaseMode::NoMouseButtons
        &&& self.active
    }

    /// Everything but the snapshot, the displacements and whether the grab is
    /// active stays as it was.
    pub open spec fn same_setup(&self, other: &ResizeForkGrab) -> bool {
        &&& self.start_data == other.start_data
        &&& self.node == other.node
        &&& self.left_up_idx == other.left_up_idx
        &&& self.parent_left_up_idx == other.parent_left_up_idx
        &&& self.orientation == other.orientation
        &&& self.release == other.release
    }

    /// The grab is `other` in all but whether it is active.
    pub open spec fn unchanged_but_active(&self, other: &ResizeForkGrab) -> bool {
        &&& self.same_setup(other)
        &&& snapshot_view(self.old_tree) == snapshot_view(other.old_tree)
        &&& self.accumulated_delta == other.accumulated_delta
        &&& self.accumulated_delta_parent == other.accumulated_delta_parent
    }

    /// A grab on the boundary after child `left_up_idx` of the group `node`,
    /// dragged along `orientation`. With `parent_left_up_idx`, the parent's
    /// boundary after that child is dragged along the other axis as well.
    pub fn new(
        start_data: GrabStartData,
        node: NodeId,
        left_up_idx: usize,
        parent_left_up_idx: Option<usize>,
        orientation: Orientation,
        release: ReleaseMode,
    ) -> (r: ResizeForkGrab)
        ensures
            r.start_data == start_data,
            r.old_tree is None,
            r.accumulated_delta == 0,
            r.accumulated_delta_parent == 0,
            r.node == node,
            r.left_up_idx == left_up_idx,
            r.parent_left_up_idx == parent_left_up_idx,
            r.orientation == orientation,
            r.release == release,
            r.active,
    {
        ResizeForkGrab {
            start_data,
            old_tree: None,
            accumulated_delta: 0,
            accumulated_delta_parent: 0,
            node,
            left_up_idx,
            parent_left_up_idx,
            orientation,
            release,
            active: true,
        }
    }

    /// Handles one motion event of the drag, as [`motion_effect`] states. `dx`
    /// and `dy` are the displacement, rounded to whole pixels, since the location
    /// of the last event that resized; `output_alive` says whether the output of
    /// the tree still exists.
    pub fn update_location(&mut self, tree: &mut LayoutTree, output_alive: bool, dx: i64, dy: i64) -> (r: MotionOutcome)
        ensures
            final(self).same_setup(old(self)),
            motion_effect(*old(self), old(tree)@, output_alive, dx, dy, r, *final(self), final(tree)@),
    {
        if !self.active || !output_alive {
            return MotionOutcome::Unchanged;
        }
        let same = match &self.old_tree {
            Some(old_tree) => Some(old_tree.same_shape(tree)),
            None => None,
        };
        match same {
            Some(true) => {
                if let Some(old_tree) = &self.old_tree {
                    *tree = old_tree.copy_clone();
                }
            },
            Some(false) => {
                self.old_tree = Some(tree.copy_clone());
                self.accumulated_delta = 0;
                self.accumulated_delta_parent = 0;
            },
            None => {
                self.old_tree = Some(tree.copy_clone());
            },
        }
        let node = self.node;
        let i = self.left_up_idx;
        if !tree.contains(node) {
            self.active = false;
            return MotionOutcome::Ungrab;
        }
        let (own, par) = match self.orientation {
            Orientation::Horizontal => (dy, dx),
            Orientation::Vertical => (dx, dy),
        };
        self.accumulated_delta = add_saturating(self.accumulated_delta, own);
        self.accumulated_delta_parent = add_saturating(self.accumulated_delta_parent, par);

        let enough_children = match tree.children_count(node) {
            Some(c) => c >= 2 && i <= c - 2,
            None => false,
        };
        let enough_sizes = match tree.group_sizes(node) {
            Some(s) => s.len() >= 2 && i <= s.len() - 2,
            None => false,
        };
        if !enough_children || !enough_sizes {
            self.active = false;
            return MotionOutcome::Ungrab;
        }
        if !fits(tree, node, i) {
            return MotionOutcome::Unchanged;
        }
        let child_orientation = match tree.group_orientation(node) {
            Some(o) => o,
            None => {
                return MotionOutcome::Unchanged;
            },
        };
        if !tree.resize_group(node, i, self.accumulated_delta) {
            return MotionOutcome::Unchanged;
        }
        if let Some(pi) = self.parent_left_up_idx {
            if let Some(p) = tree.parent_of(node) {
                if let Some(po) = tree.group_orientation(p) {
                    if po != child_orientation && fits(tree, p, pi) {
                        tree.resize_group(p, pi, self.accumulated_delta_parent);
                    }
                }
            }
        }
        MotionOutcome::Resized
    }

    /// Handles a touch motion event: only the touch that started the grab
    /// drives it; motion of any other touch is ignored.
    pub fn touch_motion(&mut self, slot: i32, tree: &mut LayoutTree, output_alive: bool, dx: i64, dy: i64) -> (r: MotionOutcome)
        ensures
            final(self).same_setup(old(self)),
            old(self).start_data != (GrabStartData::Touch { slot }) ==> {
                &&& r == MotionOutcome::Unchanged
                &&& final(tree)@ == old(tree)@
                &&& snapshot_view(final(self).old_tree) == snapshot_view(old(self).old_tree)
                &&& final(self).accumulated_delta == old(self).accumulated_delta
                &&& final(self).accumulated_delta_parent == old(self).accumulated_delta_parent
                &&& final(self).active == old(self).active
            },
            old(self).start_data == (GrabStartData::Touch { slot }) ==> motion_effect(
                *old(self),
                old(tree)@,
                output_alive,
                dx,
                dy,
                r,
                *final(self),
                final(tree)@,
            ),
    {
        let own = match self.start_data {
            GrabStartData::Touch { slot: s } => s == slot,
            GrabStartData::Pointer { .. } => false,
        };
        if own {
            self.update_location(tree, output_alive, dx, dy)
        } else {
            MotionOutcome::Unchanged
        }
    }

    /// Handles a pointer button event; `pressed` says whether this button went
    /// down, `no_buttons_held` whether no button is held after it. Returns
    /// whether the grab ends, as its release mode says.
    pub fn button(&mut self, pressed: bool, no_buttons_held: bool) -> (r: bool)
        ensures
            r == (match old(self).release {
                ReleaseMode::NoMouseButtons => no_buttons_held,
                ReleaseMode::Click => pressed,
            }),
            final(self).active == (old(self).active && !r),
            final(self).unchanged_but_active(old(self)),
    {
        let ends = match self.release {
            ReleaseMode::NoMouseButtons => no_buttons_held,
            ReleaseMode::Click => pressed,
        };
        if ends {
            self.active = false;
        }
        ends
    }

    /// Handles a touch going up. Returns whether the grab ends: it does when
    /// the touch that started it is lifted.
    pub fn up(&mut self, slot: i32) -> (r: bool)
        ensures
            r == (old(self).start_data == (GrabStartData::Touch { slot })),
            final(self).active == (old(self).active && !r),
            final(self).unchanged_but_active(old(self)),
    {
        let ends = match self.start_data {
            GrabStartData::Touch { slot: s } => s == slot,
            GrabStartData::Pointer { .. } => false,
        };
        if ends {
            self.active = false;
        }
        ends
    }

    /// Ends the grab: later motion events change nothing. The tree keeps the
    /// sizes that the last motion event gave it.
    pub fn cancel(&mut self)
        ensures
            !final(self).active,
            final(self).unchanged_but_active(old(self)),
    {
        self.active = false;
    }

    /// Whether a touch started this grab.
    pub fn is_touch_grab(&self) -> (r: bool)
        ensures
            r == (self.start_data is Touch),
    {
        match self.start_data {
            GrabStartData::Touch { .. } => true,
            GrabStartData::Pointer { .. } => false,
        }
    }
}

} // verus!
