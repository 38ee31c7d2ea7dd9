use vstd::prelude::*;
use crate::distribution::{perform_fork_grab_resize, pair_accepts, resized_sizes};

verus! {

/// The axis along which a group lays out its children.
#[derive(Clone, Copy, Debug, PartialEq, Eq, Structural)]
pub enum Orientation {
    Horizontal,
    Vertical,
}

/// A handle to a node of a [`LayoutTree`].
///
/// Handles are slot numbers of the tree's arena. A copy of a tree made with
/// [`LayoutTree::copy_clone`] keeps every handle, so the nodes of a snapshot
/// and of the live tree can be compared by identity.
#[derive(Clone, Copy, Debug, PartialEq, Eq, Hash, Structural)]
pub struct NodeId {
    pub index: usize,
}

/// What a node holds: a group that splits its extent between its children,
/// or a leaf that shows one window.
#[derive(Debug)]
pub enum NodeData {
    Group { orientation: Orientation, sizes: Vec<i32> },
    Mapped { window: u64 },
}

#[derive(Debug)]
pub struct Node {
    pub parent: Option<NodeId>,
    pub children: Vec<NodeId>,
    pub data: NodeData,
}

/// An ordered tree stored in an arena of slots; a removed node leaves its slot empty.
#[derive(Debug)]
pub struct LayoutTree {
    root: Option<NodeId>,
    nodes: Vec<Option<Node>>,
}

/// The mathematical content of a [`NodeData`].
pub ghost enum DataView {
    Group { orientation: Orientation, sizes: Seq<i32> },
    Mapped { window: u64 },
}

pub ghost struct NodeView {
    pub parent: Option<NodeId>,
    pub children: Seq<NodeId>,
    pub data: DataView,
}

pub ghost struct TreeView {
    pub root: Option<NodeId>,
    pub nodes: Seq<Option<NodeView>>,
}

impl NodeData {
    pub open spec fn view(&self) -> DataView {
        match self {
            NodeData::Group { orientation, sizes } => DataView::Group {
                orientation: *orientation,
                sizes: sizes@,
            },
            NodeData::Mapped { window } => DataView::Mapped { window: *window },
        }
    }
}

impl Node {
    pub open spec fn view(&self) -> NodeView {
        NodeView { parent: self.parent, children: self.children@, data: self.data@ }
    }
}

pub open spec fn slot_view(slot: Option<Node>) -> Option<NodeView> {
    match slot {
        Some(n) => Some(n@),
        None => None,
    }
}

impl TreeView {
    pub open spec fn contains(self, id: NodeId) -> bool {
        id.index < self.nodes.len() && self.nodes[id.index as int] is Some
    }

    pub open spec fn node(self, id: NodeId) -> NodeView {
        self.nodes[id.index as int]->Some_0
    }

    /// Handles of the subtree below `id`, in pre-order, down to `depth` levels.
    pub open spec fn subtree_ids(self, id: NodeId, depth: nat) -> Seq<NodeId>
        decreases depth, 0nat,
    {
        if depth == 0 || !self.contains(id) {
            Seq::empty()
        } else {
            seq![id] + self.forest_ids(self.node(id).children, (depth - 1) as nat)
        }
    }

    /// Handles of the subtrees below each of `ids`, in order, each in pre-order.
    pub open spec fn forest_ids(self, ids: Seq<NodeId>, depth: nat) -> Seq<NodeId>
        decreases depth, ids.len(),
    {
        if ids.len() == 0 {
            Seq::empty()
        } else {
            self.forest_ids(ids.drop_last(), depth) + self.subtree_ids(ids.last(), depth)
        }
    }

    /// The pre-order sequence of all handles reachable from the root.
    ///
    /// No path in the arena has more nodes than there are slots, so bounding the
    /// depth by the number of slots loses no node of a tree.
    pub open spec fn pre_order(self) -> Seq<NodeId> {
        match self.root {
            Some(r) => self.subtree_ids(r, self.nodes.len()),
            None => Seq::empty(),
        }
    }

    /// The sizes of the group at `id`, if `id` is a group.
    pub open spec fn group_sizes(self, id: NodeId) -> Option<Seq<i32>> {
        if self.contains(id) {
            match self.node(id).data {
                DataView::Group { sizes, .. } => Some(sizes),
                DataView::Mapped { .. } => None,
            }
        } else {
            None
        }
    }

    /// The orientation of the group at `id`, if `id` is a group.
    pub open spec fn group_orientation(self, id: NodeId) -> Option<Orientation> {
        if self.contains(id) {
            match self.node(id).data {
                DataView::Group { orientation, .. } => Some(orientation),
                DataView::Mapped { .. } => None,
            }
        } else {
            None
        }
    }

    /// This tree with the pair `i`, `i + 1` of the group at `id` resized by `delta`.
    pub open spec fn with_pair_resized(self, id: NodeId, i: int, delta: int) -> TreeView {
        self.with_sizes(
            id,
            resized_sizes(self.group_sizes(id)->Some_0, i, self.group_orientation(id)->Some_0, delta),
        )
    }

    /// This tree with `data` added in a new slot at the end of the arena, as the
    /// root when `parent` is `None`, else as the last child of `parent`.
    pub open spec fn with_added(self, parent: Option<NodeId>, data: DataView) -> TreeView {
        let id = NodeId { index: self.nodes.len() as usize };
        let fresh = Some(NodeView { parent, children: Seq::empty(), data });
        match parent {
            None => TreeView { root: Some(id), nodes: self.nodes.push(fresh) },
            Some(p) => {
                let pn = self.node(p);
                TreeView {
                    root: self.root,
                    nodes: self.nodes.update(
                        p.index as int,
                        Some(NodeView { parent: pn.parent, children: pn.children.push(id), data: pn.data }),
                    ).push(fresh),
                }
            },
        }
    }

    /// This tree with the sizes of the group at `id` replaced.
    pub open spec fn with_sizes(self, id: NodeId, sizes: Seq<i32>) -> TreeView {
        let n = self.node(id);
        match n.data {
            DataView::Group { orientation, .. } => TreeView {
                root: self.root,
                nodes: self.nodes.update(
                    id.index as int,
                    Some(
                        NodeView {
                            parent: n.parent,
                            children: n.children,
                            data: DataView::Group { orientation, sizes },
                        },
                    ),
                ),
            },
            DataView::Mapped { .. } => self,
        }
    }
}

fn copy_items<T: Copy>(v: &Vec<T>) -> (r: Vec<T>)
    ensures
        r@ == v@,
{
    let mut r: Vec<T> = Vec::new();
    let mut i: usize = 0;
    while i < v.len()
        invariant
            i <= v.len(),
            r@ == v@.take(i as int),
        decreases v.len() - i,
    {
        r.push(v[i]);
        i += 1;
        assert(r@ =~= v@.take(i as int));
    }
    assert(v@.take(i as int) == v@);
    r
}

impl Node {
    fn copy_node(&self) -> (r: Node)
        ensures
            r@ == self@,
    {
        let data = match &self.data {
            NodeData::Group { orientation, sizes } => NodeData::Group {
                orientation: *orientation,
                sizes: copy_items(sizes),
            },
            NodeData::Mapped { window } => NodeData::Mapped { window: *window },
        };
        Node { parent: self.parent, children: copy_items(&self.children), data }
    }
}

impl LayoutTree {
    pub closed spec fn view(&self) -> TreeView {
        TreeView { root: self.root, nodes: self.nodes@.map_values(|s: Option<Node>| slot_view(s)) }
    }

    /// An empty tree.
    pub fn new() -> (r: LayoutTree)
        ensures
            r@.root is None,
            r@.nodes.len() == 0,
    {
        LayoutTree { root: None, nodes: Vec::new() }
    }

    /// Whether `id` names a node of this tree.
    pub fn contains(&self, id: NodeId) -> (r: bool)
        ensures
            r == self@.contains(id),
    {
        id.index < self.nodes.len() && self.nodes[id.index].is_some()
    }

    /// A copy of this tree that keeps every handle.
    pub fn copy_clone(&self) -> (r: LayoutTree)
        ensures
            r@ == self@,
    {
        let mut nodes: Vec<Option<Node>> = Vec::new();
        let mut i: usize = 0;
        while i < self.nodes.len()
            invariant
                i <= self.nodes.len(),
                nodes@.len() == i,
                forall|k: int| 0 <= k < i ==> slot_view(#[trigger] nodes@[k]) == slot_view(self.nodes@[k]),
            decreases self.nodes.len() - i,
        {
            let slot = match &self.nodes[i] {
                Some(n) => Some(n.copy_node()),
                None => None,
            };
            nodes.push(slot);
            i += 1;
        }
        let r = LayoutTree { root: self.root, nodes };
        assert(r@.nodes =~= self@.nodes);
        r
    }

    fn push_subtree(&self, id: NodeId, depth: usize, out: &mut Vec<NodeId>)
        ensures
            final(out)@ == old(out)@ + self@.subtree_ids(id, depth as nat),
        decreases depth,
    {
        if depth == 0 {
            return;
        }
        if id.index >= self.nodes.len() {
            return;
        }
        match &self.nodes[id.index] {
            None => {},
            Some(node) => {
                let ghost start = out@;
                let ghost children = node.children@;
                assert(self@.node(id).children == children);
                out.push(id);
                let mut k: usize = 0;
                while k < node.children.len()
                    invariant
                        depth > 0,
                        k <= children.len(),
                        children == node.children@,
                        out@ == start + seq![id] + self@.forest_ids(children.take(k as int), (depth - 1) as nat),
                    decreases children.len() - k,
                {
                    let ghost before = out@;
                    self.push_subtree(node.children[k], depth - 1, out);
                    assert(children.take(k + 1).drop_last() == children.take(k as int));
                    assert(children.take(k + 1).last() == children[k as int]);
                    assert(out@ == start + seq![id] + self@.forest_ids(children.take(k + 1), (depth - 1) as nat));
                    k += 1;
                }
                assert(children.take(k as int) == children);
            },
        }
    }

    /// The handles of all nodes reachable from the root, in pre-order.
    pub fn pre_order_ids(&self) -> (r: Vec<NodeId>)
        ensures
            r@ == self@.pre_order(),
    {
        let mut out: Vec<NodeId> = Vec::new();
        match self.root {
            Some(root) => {
                self.push_subtree(root, self.nodes.len(), &mut out);
                assert(out@ == self@.pre_order());
            },
            None => {},
        }
        out
    }

    /// Whether the two trees hold the same handles in the same pre-order.
    pub fn same_shape(&self, other: &LayoutTree) -> (r: bool)
        ensures
            r == (self@.pre_order() == other@.pre_order()),
    {
        let a = self.pre_order_ids();
        let b = other.pre_order_ids();
        if a.len() != b.len() {
            return false;
        }
        let mut k: usize = 0;
        while k < a.len()
            invariant
                k <= a.len(),
                a.len() == b.len(),
                a@ == self@.pre_order(),
                b@ == other@.pre_order(),
                forall|j: int| 0 <= j < k ==> a@[j] == b@[j],
            decreases a.len() - k,
        {
            if a[k].index != b[k].index {
                assert(a@[k as int] != b@[k as int]);
                return false;
            }
            k += 1;
        }
        assert(a@ =~= b@);
        true
    }

    /// The number of children of `id`, if `id` names a node.
    pub fn children_count(&self, id: NodeId) -> (r: Option<usize>)
        ensures
            r is Some == self@.contains(id),
            r matches Some(c) ==> c == self@.node(id).children.len(),
    {
        if id.index >= self.nodes.len() {
            return None;
        }
        match &self.nodes[id.index] {
            Some(n) => Some(n.children.len()),
            None => None,
        }
    }

    /// The parent of `id`, if `id` names a node that has one.
    pub fn parent_of(&self, id: NodeId) -> (r: Option<NodeId>)
        ensures
            r == (if self@.contains(id) { self@.node(id).parent } else { None }),
    {
        if id.index >= self.nodes.len() {
            return None;
        }
        match &self.nodes[id.index] {
            Some(n) => n.parent,
            None => None,
        }
    }

    /// The orientation of the group at `id`, if `id` names a group.
    pub fn group_orientation(&self, id: NodeId) -> (r: Option<Orientation>)
        ensures
            r == self@.group_orientation(id),
    {
        if id.index >= self.nodes.len() {
            return None;
        }
        match &self.nodes[id.index] {
            Some(n) => match &n.data {
                NodeData::Group { orientation, .. } => Some(*orientation),
                NodeData::Mapped { .. } => None,
            },
            None => None,
        }
    }

    /// A copy of the sizes of the group at `id`, if `id` names a group.
    pub fn group_sizes(&self, id: NodeId) -> (r: Option<Vec<i32>>)
        ensures
            r matches Some(v) ==> self@.group_sizes(id) == Some(v@),
            r is None ==> self@.group_sizes(id) is None,
    {
        if id.index >= self.nodes.len() {
            return None;
        }
        match &self.nodes[id.index] {
            Some(n) => match &n.data {
                NodeData::Group { sizes, .. } => Some(copy_items(sizes)),
                NodeData::Mapped { .. } => None,
            },
            None => None,
        }
    }

    /// Moves the boundary between children `i` and `i + 1` of the group at `id`
    /// by `delta`, along the group's own orientation (see [`perform_fork_grab_resize`]).
    pub fn resize_group(&mut self, id: NodeId, i: usize, delta: i64) -> (r: bool)
        requires
            old(self)@.group_sizes(id) matches Some(s) && i + 1 < s.len() && s[i as int] + s[i + 1]
                <= i32::MAX,
        ensures
            r == pair_accepts(
                old(self)@.group_sizes(id)->Some_0[i as int] as int,
                old(self)@.group_sizes(id)->Some_0[i + 1] as int,
                old(self)@.group_orientation(id)->Some_0,
            ),
            r ==> final(self)@ == old(self)@.with_pair_resized(id, i as int, delta as int),
            !r ==> final(self)@ == old(self)@,
    {
        let ghost before = self@;
        match &mut self.nodes[id.index] {
            Some(n) => match &mut n.data {
                NodeData::Group { orientation, sizes } => {
                    let r = perform_fork_grab_resize(sizes, i, *orientation, delta);
                    proof {
                        if r {
                            assert(self@.nodes =~= before.with_pair_resized(id, i as int, delta as int).nodes);
                        } else {
                            assert(self@.nodes =~= before.nodes);
                        }
                    }
                    r
                },
                NodeData::Mapped { .. } => false,
            },
            None => false,
        }
    }

    /// Adds a node holding `data` in a new slot: as the new root when `parent`
    /// is `None`, else as the last child of `parent`.
    ///
    /// Returns `None`, and leaves the tree as it was, when `parent` names no node.
    /// A new root takes no former root as its child: the former tree is then
    /// no longer reachable from the root.
    pub fn add_node(&mut self, parent: Option<NodeId>, data: NodeData) -> (r: Option<NodeId>)
        requires
            old(self)@.nodes.len() < usize::MAX,
        ensures
            (parent matches Some(p) && !old(self)@.contains(p)) ==> r is None && final(self)@ == old(self)@,
            (parent is None || old(self)@.contains(parent->Some_0)) ==> {
                &&& r == Some(NodeId { index: old(self)@.nodes.len() as usize })
                &&& final(self)@ == old(self)@.with_added(parent, data@)
            },
    {
        let ghost before = self@;
        let ghost dv = data@;
        let id = NodeId { index: self.nodes.len() };
        match parent {
            None => {
                self.nodes.push(Some(Node { parent: None, children: Vec::new(), data }));
                self.root = Some(id);
                assert(self@.nodes =~= before.with_added(parent, dv).nodes);
            },
            Some(p) => {
                if !self.contains(p) {
                    return None;
                }
                match &mut self.nodes[p.index] {
                    Some(pn) => {
                        pn.children.push(id);
                    },
                    None => {},
                }
                self.nodes.push(Some(Node { parent: Some(p), children: Vec::new(), data }));
                assert(self@.nodes =~= before.with_added(parent, dv).nodes);
            },
        }
        Some(id)
    }

    /// The handle of the root, if the tree has one.
    pub fn root_node_id(&self) -> (r: Option<NodeId>)
        ensures
            r == self@.root,
    {
        self.root
    }
}

} // verus!
