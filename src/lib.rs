//! Interactive fork resizing for a tiling layout tree.
//!
//! A tiling layout is an ordered tree whose inner nodes ("groups") split their
//! extent between their children along one orientation. Dragging the boundary
//! between two siblings moves size from one to the other; this crate holds the
//! tree, the rule that redistributes a pair of sizes, and the grab state machine
//! that replays a drag against a snapshot of the tree on every motion event.

mod layout;
mod distribution;
mod grab;

pub use layout::{DataView, LayoutTree, NodeData, NodeId, NodeView, Orientation, TreeView};
pub use distribution::{
    combined_minimum, lemma_resize_conserves_total, lemma_resize_respects_minimum,
    lemma_zero_move_is_identity, pair_accepts, perform_fork_grab_resize, resized_pair,
    resized_sizes, single_minimum,
};
pub use grab::{
    lemma_shape_change_restarts_drag, lemma_zero_displacement_restores,
    lemma_zero_net_drag_restores_snapshot, motion_effect, motion_outcome, pair_above_minimum, replay_base, rebases, resized_tree,
    GrabStartData, MotionOutcome, ReleaseMode, ResizeCursor, ResizeForkGrab, ResizeForkTarget,
    BTN_LEFT,
};
