use tiling_resize::{
    perform_fork_grab_resize, GrabStartData, LayoutTree, MotionOutcome, NodeData, NodeId,
    Orientation, ReleaseMode, ResizeCursor, ResizeForkGrab, ResizeForkTarget, BTN_LEFT,
};

fn group(orientation: Orientation, sizes: Vec<i32>) -> NodeData {
    NodeData::Group { orientation, sizes }
}

/// A root group with one window per size.
fn flat_tree(orientation: Orientation, sizes: Vec<i32>) -> (LayoutTree, NodeId) {
    let mut tree = LayoutTree::new();
    let n = sizes.len();
    let root = tree.add_node(None, group(orientation, sizes)).unwrap();
    for w in 0..n {
        tree.add_node(Some(root), NodeData::Mapped { window: w as u64 }).unwrap();
    }
    (tree, root)
}

fn sizes(tree: &LayoutTree, id: NodeId) -> Vec<i32> {
    tree.group_sizes(id).unwrap()
}

fn pointer_grab(target: &ResizeForkTarget) -> ResizeForkGrab {
    target.button(BTN_LEFT, true).unwrap()
}

#[test]
fn example_grow_first_of_pair() {
    let mut s = vec![500, 500];
    assert!(perform_fork_grab_resize(&mut s, 0, Orientation::Horizontal, 100));
    assert_eq!(s, vec![600, 400]);
    assert_eq!(s[0] + s[1], 1000);
}

#[test]
fn example_extreme_shrink_clamps() {
    let mut s = vec![300, 300, 300];
    assert!(perform_fork_grab_resize(&mut s, 0, Orientation::Horizontal, -500));
    assert_eq!(s, vec![240, 360, 300]);
}

#[test]
fn rejects_small_pair() {
    let mut s = vec![200, 200, 900];
    assert!(!perform_fork_grab_resize(&mut s, 0, Orientation::Horizontal, 50));
    assert_eq!(s, vec![200, 200, 900]);
    let mut v = vec![400, 300];
    assert!(!perform_fork_grab_resize(&mut v, 0, Orientation::Vertical, -10));
    assert_eq!(v, vec![400, 300]);
}

#[test]
fn second_of_pair_hits_minimum() {
    let mut s = vec![300, 300];
    assert!(perform_fork_grab_resize(&mut s, 0, Orientation::Horizontal, 1000));
    assert_eq!(s, vec![360, 240]);
    let mut v = vec![400, 400];
    assert!(perform_fork_grab_resize(&mut v, 0, Orientation::Vertical, -100));
    assert_eq!(v, vec![360, 440]);
}

#[test]
fn second_pair_of_group() {
    let mut s = vec![300, 500, 500];
    assert!(perform_fork_grab_resize(&mut s, 1, Orientation::Horizontal, -60));
    assert_eq!(s, vec![300, 440, 560]);
}

#[test]
fn conservation_and_floor_over_many_moves() {
    for orientation in [Orientation::Horizontal, Orientation::Vertical] {
        let min = if orientation == Orientation::Horizontal { 240 } else { 360 };
        for (a, b) in [(500, 500), (300, 900), (100, 1000), (720, 0), (240, 240)] {
            for delta in [-100000i64, -700, -250, -1, 0, 1, 37, 250, 700, 100000] {
                let mut s = vec![a, b];
                if perform_fork_grab_resize(&mut s, 0, orientation, delta) {
                    assert_eq!(s[0] + s[1], a + b);
                    assert!(s[0] >= min && s[1] >= min);
                } else {
                    assert_eq!(s, vec![a, b]);
                }
            }
        }
    }
}

#[test]
fn zero_move_keeps_pair() {
    let mut s = vec![450, 610];
    assert!(perform_fork_grab_resize(&mut s, 0, Orientation::Vertical, 0));
    assert_eq!(s, vec![450, 610]);
}

#[test]
fn zero_move_lifts_pair_below_minimum() {
    let mut s = vec![100, 900];
    assert!(perform_fork_grab_resize(&mut s, 0, Orientation::Horizontal, 0));
    assert_eq!(s, vec![240, 760]);
}

#[test]
fn cursor_follows_orientation() {
    let (_, root) = flat_tree(Orientation::Horizontal, vec![300, 300]);
    let h = ResizeForkTarget { node: root, left_up_idx: 0, orientation: Orientation::Horizontal };
    let v = ResizeForkTarget { node: root, left_up_idx: 0, orientation: Orientation::Vertical };
    assert_eq!(h.cursor(), ResizeCursor::RowResize);
    assert_eq!(v.cursor(), ResizeCursor::ColResize);
}

#[test]
fn only_left_press_starts_grab() {
    let (_, root) = flat_tree(Orientation::Horizontal, vec![300, 300]);
    let target = ResizeForkTarget { node: root, left_up_idx: 0, orientation: Orientation::Horizontal };
    assert!(target.button(BTN_LEFT, false).is_none());
    assert!(target.button(0x111, true).is_none());
    let grab = target.button(BTN_LEFT, true).unwrap();
    assert_eq!(grab.start_data, GrabStartData::Pointer { button: BTN_LEFT });
    assert_eq!(grab.release, ReleaseMode::NoMouseButtons);
    assert_eq!(grab.parent_left_up_idx, None);
    assert!(!grab.is_touch_grab());
    let touch = target.down(3);
    assert!(touch.is_touch_grab());
    assert_eq!(touch.start_data, GrabStartData::Touch { slot: 3 });
}

#[test]
fn grab_then_output_invalidation() {
    let (mut tree, root) = flat_tree(Orientation::Horizontal, vec![300, 300, 300]);
    let target = ResizeForkTarget { node: root, left_up_idx: 0, orientation: Orientation::Horizontal };
    let mut grab = pointer_grab(&target);
    assert_eq!(grab.update_location(&mut tree, true, 0, 50), MotionOutcome::Resized);
    assert_eq!(sizes(&tree, root), vec![350, 250, 300]);
    assert_eq!(grab.update_location(&mut tree, false, 0, 80), MotionOutcome::Unchanged);
    assert_eq!(grab.update_location(&mut tree, false, 0, -200), MotionOutcome::Unchanged);
    assert_eq!(sizes(&tree, root), vec![350, 250, 300]);
    assert_eq!(grab.accumulated_delta, 50);
}

#[test]
fn cancel_keeps_last_sizes() {
    let (mut tree, root) = flat_tree(Orientation::Horizontal, vec![300, 300, 300]);
    let target = ResizeForkTarget { node: root, left_up_idx: 0, orientation: Orientation::Horizontal };
    let mut grab = target.down(1);
    assert_eq!(grab.touch_motion(1, &mut tree, true, 0, 50), MotionOutcome::Resized);
    grab.cancel();
    assert!(!grab.active);
    assert_eq!(grab.touch_motion(1, &mut tree, true, 0, 90), MotionOutcome::Unchanged);
    assert_eq!(sizes(&tree, root), vec![350, 250, 300]);
}

#[test]
fn replay_accumulates_whole_drag() {
    let (mut tree, root) = flat_tree(Orientation::Horizontal, vec![300, 300, 300]);
    let target = ResizeForkTarget { node: root, left_up_idx: 0, orientation: Orientation::Horizontal };
    let mut grab = pointer_grab(&target);
    assert_eq!(grab.update_location(&mut tree, true, 5, 30), MotionOutcome::Resized);
    assert_eq!(grab.update_location(&mut tree, true, 5, 20), MotionOutcome::Resized);
    assert_eq!(sizes(&tree, root), vec![350, 250, 300]);
    assert_eq!(grab.accumulated_delta, 50);
    assert_eq!(grab.accumulated_delta_parent, 10);
}

#[test]
fn zero_net_displacement_restores_sizes() {
    let (mut tree, root) = flat_tree(Orientation::Horizontal, vec![300, 300, 300]);
    let target = ResizeForkTarget { node: root, left_up_idx: 1, orientation: Orientation::Horizontal };
    let mut grab = pointer_grab(&target);
    for dy in [40, -100, 25, 7, 3] {
        assert_eq!(grab.update_location(&mut tree, true, 0, dy), MotionOutcome::Resized);
    }
    assert_eq!(sizes(&tree, root), vec![300, 275, 325]);
    assert_eq!(grab.update_location(&mut tree, true, 0, 25), MotionOutcome::Resized);
    assert_eq!(sizes(&tree, root), vec![300, 300, 300]);
}

#[test]
fn clamped_drag_recovers_on_return() {
    let (mut tree, root) = flat_tree(Orientation::Horizontal, vec![300, 300, 300]);
    let target = ResizeForkTarget { node: root, left_up_idx: 0, orientation: Orientation::Horizontal };
    let mut grab = pointer_grab(&target);
    assert_eq!(grab.update_location(&mut tree, true, 0, -500), MotionOutcome::Resized);
    assert_eq!(sizes(&tree, root), vec![240, 360, 300]);
    assert_eq!(grab.update_location(&mut tree, true, 0, 500), MotionOutcome::Resized);
    assert_eq!(sizes(&tree, root), vec![300, 300, 300]);
}

#[test]
fn shape_change_rebases_drag() {
    let (mut tree, root) = flat_tree(Orientation::Horizontal, vec![300, 300, 300]);
    let target = ResizeForkTarget { node: root, left_up_idx: 0, orientation: Orientation::Horizontal };
    let mut grab = pointer_grab(&target);
    assert_eq!(grab.update_location(&mut tree, true, 0, 50), MotionOutcome::Resized);
    tree.add_node(Some(root), NodeData::Mapped { window: 9 }).unwrap();
    assert_eq!(grab.update_location(&mut tree, true, 0, 10), MotionOutcome::Resized);
    assert_eq!(grab.accumulated_delta, 10);
    assert_eq!(sizes(&tree, root), vec![360, 240, 300]);
    let snapshot = grab.old_tree.as_ref().unwrap();
    assert!(snapshot.same_shape(&tree));
}

#[test]
fn rejected_pair_leaves_tree() {
    let (mut tree, root) = flat_tree(Orientation::Vertical, vec![300, 300]);
    let target = ResizeForkTarget { node: root, left_up_idx: 0, orientation: Orientation::Vertical };
    let mut grab = pointer_grab(&target);
    assert_eq!(grab.update_location(&mut tree, true, 40, 0), MotionOutcome::Unchanged);
    assert_eq!(sizes(&tree, root), vec![300, 300]);
    assert!(grab.active);
}

#[test]
fn missing_fork_ends_grab() {
    let (mut tree, root) = flat_tree(Orientation::Horizontal, vec![300, 300, 300]);
    let target = ResizeForkTarget { node: root, left_up_idx: 2, orientation: Orientation::Horizontal };
    let mut grab = pointer_grab(&target);
    assert_eq!(grab.update_location(&mut tree, true, 0, 10), MotionOutcome::Ungrab);
    assert!(!grab.active);
    assert_eq!(sizes(&tree, root), vec![300, 300, 300]);

    let leaf = NodeId { index: 1 };
    let target = ResizeForkTarget { node: leaf, left_up_idx: 0, orientation: Orientation::Horizontal };
    let mut grab = pointer_grab(&target);
    assert_eq!(grab.update_location(&mut tree, true, 0, 10), MotionOutcome::Ungrab);

    let gone = NodeId { index: 40 };
    let target = ResizeForkTarget { node: gone, left_up_idx: 0, orientation: Orientation::Horizontal };
    let mut grab = pointer_grab(&target);
    assert_eq!(grab.update_location(&mut tree, true, 0, 10), MotionOutcome::Ungrab);
}

#[test]
fn oversized_pair_is_left_alone() {
    let (mut tree, root) = flat_tree(Orientation::Horizontal, vec![i32::MAX, 10]);
    let target = ResizeForkTarget { node: root, left_up_idx: 0, orientation: Orientation::Horizontal };
    let mut grab = pointer_grab(&target);
    assert_eq!(grab.update_location(&mut tree, true, 0, -10), MotionOutcome::Unchanged);
    assert_eq!(sizes(&tree, root), vec![i32::MAX, 10]);
}

/// A vertical root split holding a horizontal group and a window.
fn nested_tree(inner: Orientation) -> (LayoutTree, NodeId, NodeId) {
    let mut tree = LayoutTree::new();
    let root = tree.add_node(None, group(Orientation::Vertical, vec![600, 600])).unwrap();
    let child = tree.add_node(Some(root), group(inner, vec![500, 500])).unwrap();
    tree.add_node(Some(root), NodeData::Mapped { window: 1 }).unwrap();
    tree.add_node(Some(child), NodeData::Mapped { window: 2 }).unwrap();
    tree.add_node(Some(child), NodeData::Mapped { window: 3 }).unwrap();
    (tree, root, child)
}

#[test]
fn corner_drag_resizes_parent() {
    let (mut tree, root, child) = nested_tree(Orientation::Horizontal);
    let mut grab = ResizeForkGrab::new(
        GrabStartData::Pointer { button: BTN_LEFT },
        child,
        0,
        Some(0),
        Orientation::Horizontal,
        ReleaseMode::Click,
    );
    assert_eq!(grab.update_location(&mut tree, true, 100, 100), MotionOutcome::Resized);
    assert_eq!(sizes(&tree, child), vec![600, 400]);
    assert_eq!(sizes(&tree, root), vec![700, 500]);
}

#[test]
fn corner_drag_skips_parent_of_same_orientation() {
    let (mut tree, root, child) = nested_tree(Orientation::Vertical);
    let mut grab = ResizeForkGrab::new(
        GrabStartData::Pointer { button: BTN_LEFT },
        child,
        0,
        Some(0),
        Orientation::Vertical,
        ReleaseMode::Click,
    );
    assert_eq!(grab.update_location(&mut tree, true, -100, 40), MotionOutcome::Resized);
    assert_eq!(sizes(&tree, child), vec![400, 600]);
    assert_eq!(sizes(&tree, root), vec![600, 600]);
}

#[test]
fn release_modes() {
    let (_, root) = flat_tree(Orientation::Horizontal, vec![300, 300]);
    let mut held = ResizeForkGrab::new(
        GrabStartData::Pointer { button: BTN_LEFT },
        root,
        0,
        None,
        Orientation::Horizontal,
        ReleaseMode::NoMouseButtons,
    );
    assert!(!held.button(true, false));
    assert!(held.active);
    assert!(held.button(false, true));
    assert!(!held.active);
    let mut click = ResizeForkGrab::new(
        GrabStartData::Pointer { button: BTN_LEFT },
        root,
        0,
        None,
        Orientation::Horizontal,
        ReleaseMode::Click,
    );
    assert!(!click.button(false, true));
    assert!(click.button(true, false));
}

#[test]
fn touch_grab_follows_its_own_slot() {
    let (mut tree, root) = flat_tree(Orientation::Horizontal, vec![300, 300, 300]);
    let target = ResizeForkTarget { node: root, left_up_idx: 0, orientation: Orientation::Horizontal };
    let mut grab = target.down(2);
    assert_eq!(grab.touch_motion(5, &mut tree, true, 0, 60), MotionOutcome::Unchanged);
    assert_eq!(sizes(&tree, root), vec![300, 300, 300]);
    assert!(!grab.up(5));
    assert!(grab.active);
    assert_eq!(grab.touch_motion(2, &mut tree, true, 0, 60), MotionOutcome::Resized);
    assert_eq!(sizes(&tree, root), vec![360, 240, 300]);
    assert!(grab.up(2));
    assert!(!grab.active);
}

#[test]
fn copy_keeps_handles_and_sizes() {
    let (tree, root, child) = nested_tree(Orientation::Horizontal);
    let copy = tree.copy_clone();
    assert!(copy.same_shape(&tree));
    assert_eq!(copy.pre_order_ids(), tree.pre_order_ids());
    assert_eq!(sizes(&copy, child), vec![500, 500]);
    assert_eq!(copy.parent_of(child), Some(root));
    assert_eq!(copy.children_count(root), Some(2));
}

#[test]
fn pre_order_visits_depth_first() {
    let (tree, root, child) = nested_tree(Orientation::Horizontal);
    let ids: Vec<usize> = tree.pre_order_ids().iter().map(|n| n.index).collect();
    assert_eq!(ids, vec![root.index, child.index, 3, 4, 2]);
    let (other, _) = flat_tree(Orientation::Horizontal, vec![300, 300, 300, 300]);
    assert!(!other.same_shape(&tree));
    assert!(LayoutTree::new().pre_order_ids().is_empty());
}

#[test]
fn add_under_missing_parent_fails() {
    let (mut tree, _) = flat_tree(Orientation::Horizontal, vec![300, 300]);
    assert_eq!(tree.add_node(Some(NodeId { index: 17 }), NodeData::Mapped { window: 0 }), None);
    assert_eq!(tree.group_orientation(NodeId { index: 0 }), Some(Orientation::Horizontal));
    assert_eq!(tree.group_orientation(NodeId { index: 1 }), None);
}
