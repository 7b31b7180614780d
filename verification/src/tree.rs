//! Snapshot of the container tree and its pre-order traversal.

use vstd::prelude::*;

verus! {

/// Identifier of a container. The window manager hands out ids that are
/// unique within one snapshot of the tree.
pub type NodeId = i64;

/// Kind of a container, as the window manager reports it.
#[derive(Clone, Copy, Debug, PartialEq, Eq, Structural)]
pub enum NodeType {
    Root,
    Output,
    Con,
    FloatingCon,
    Workspace,
    DockArea,
    Unknown,
}

/// Layout of a container's children, as the window manager reports it.
#[derive(Clone, Copy, Debug, PartialEq, Eq, Structural)]
pub enum NodeLayout {
    SplitH,
    SplitV,
    Stacked,
    Tabbed,
    DockArea,
    Output,
    Unknown,
}

impl NodeType {
    /// The tag under which a container of this kind is listed.
    pub open spec fn name(self) -> Seq<char> {
        match self {
            NodeType::Root => "Root"@,
            NodeType::Output => "Output"@,
            NodeType::Con => "Con"@,
            NodeType::FloatingCon => "FloatingCon"@,
            NodeType::Workspace => "Workspace"@,
            NodeType::DockArea => "DockArea"@,
            NodeType::Unknown => "Unknown"@,
        }
    }
}

impl NodeLayout {
    /// The tag under which a container with this layout is listed.
    pub open spec fn name(self) -> Seq<char> {
        match self {
            NodeLayout::SplitH => "SplitH"@,
            NodeLayout::SplitV => "SplitV"@,
            NodeLayout::Stacked => "Stacked"@,
            NodeLayout::Tabbed => "Tabbed"@,
            NodeLayout::DockArea => "DockArea"@,
            NodeLayout::Output => "Output"@,
            NodeLayout::Unknown => "Unknown"@,
        }
    }
}

/// One container of the tree together with the containers below it.
///
/// A snapshot is a single `TreeNode`, the root. It is never patched in place:
/// every change of the window manager's tree yields a new snapshot.
#[derive(Debug, PartialEq, Eq)]
pub struct TreeNode {
    pub id: NodeId,
    pub name: Option<String>,
    pub node_type: NodeType,
    pub layout: NodeLayout,
    pub focused: bool,
    pub urgent: bool,
    pub children: Vec<TreeNode>,
}

impl TreeNode {
    /// Number of containers in the tree rooted at `self`.
    pub open spec fn node_count(self) -> nat
        decreases self,
    {
        1 + forest_count(self.children@)
    }

    /// The ids of the tree rooted at `self` in pre-order: a container before
    /// its children, the children from first to last.
    pub open spec fn preorder_ids(self) -> Seq<NodeId>
        decreases self,
    {
        seq![self.id] + forest_ids(self.children@)
    }

    /// Whether some container of the tree rooted at `self` has the id `id`.
    pub open spec fn has_id(self, id: NodeId) -> bool
        decreases self,
    {
        self.id == id || forest_has_id(self.children@, id)
    }
}

/// Number of containers in a sequence of sibling trees.
pub open spec fn forest_count(nodes: Seq<TreeNode>) -> nat
    decreases nodes,
{
    if nodes.len() == 0 {
        0
    } else {
        forest_count(nodes.drop_last()) + nodes.last().node_count()
    }
}

/// The pre-order ids of a sequence of sibling trees, one tree after the other.
pub open spec fn forest_ids(nodes: Seq<TreeNode>) -> Seq<NodeId>
    decreases nodes,
{
    if nodes.len() == 0 {
        Seq::empty()
    } else {
        forest_ids(nodes.drop_last()) + nodes.last().preorder_ids()
    }
}

/// Whether some container in a sequence of sibling trees has the id `id`.
pub open spec fn forest_has_id(nodes: Seq<TreeNode>, id: NodeId) -> bool
    decreases nodes,
{
    nodes.len() > 0 && (forest_has_id(nodes.drop_last(), id) || nodes.last().has_id(id))
}

/// The pre-order list holds one id per container, and the root's id first.
pub proof fn lemma_preorder_ids_len(node: TreeNode)
    ensures
        node.preorder_ids().len() == node.node_count(),
        node.preorder_ids().len() >= 1,
        node.preorder_ids()[0] == node.id,
    decreases node,
{
    lemma_forest_ids_len(node.children@);
}

/// The pre-order list of a forest holds one id per container.
pub proof fn lemma_forest_ids_len(nodes: Seq<TreeNode>)
    ensures
        forest_ids(nodes).len() == forest_count(nodes),
    decreases nodes,
{
    if nodes.len() > 0 {
        lemma_forest_ids_len(nodes.drop_last());
        lemma_preorder_ids_len(nodes.last());
    }
}

/// The pre-order list holds exactly the ids that occur in the tree.
pub proof fn lemma_preorder_ids_contains(node: TreeNode, id: NodeId)
    ensures
        node.preorder_ids().contains(id) <==> node.has_id(id),
    decreases node,
{
    let rest = forest_ids(node.children@);
    let ids = node.preorder_ids();
    lemma_forest_ids_contains(node.children@, id);
    if node.has_id(id) {
        if node.id == id {
            assert(ids[0] == id);
        } else {
            let k = choose|k: int| 0 <= k < rest.len() && rest[k] == id;
            assert(ids[k + 1] == id);
        }
    }
}

/// The pre-order list of a forest holds exactly the ids that occur in it.
pub proof fn lemma_forest_ids_contains(nodes: Seq<TreeNode>, id: NodeId)
    ensures
        forest_ids(nodes).contains(id) <==> forest_has_id(nodes, id),
    decreases nodes,
{
    if nodes.len() > 0 {
        let front = forest_ids(nodes.drop_last());
        let back = nodes.last().preorder_ids();
        let ids = forest_ids(nodes);
        lemma_forest_ids_contains(nodes.drop_last(), id);
        lemma_preorder_ids_contains(nodes.last(), id);
        if front.contains(id) {
            let k = choose|k: int| 0 <= k < front.len() && front[k] == id;
            assert(ids[k] == id);
        }
        if back.contains(id) {
            let k = choose|k: int| 0 <= k < back.len() && back[k] == id;
            assert(ids[front.len() + k] == id);
        }
    }
}

/// Lists the ids of the tree rooted at `node` in pre-order.
pub fn collect_ids(node: &TreeNode) -> (ids: Vec<NodeId>)
    ensures
        ids@ == node.preorder_ids(),
    decreases node,
{
    let mut ids: Vec<NodeId> = Vec::new();
    ids.push(node.id);
    let mut i: usize = 0;
    while i < node.children.len()
        invariant
            i <= node.children.len(),
            ids@ == seq![node.id] + forest_ids(node.children@.take(i as int)),
        decreases node.children.len() - i,
    {
        let mut sub = collect_ids(&node.children[i]);
        assert(node.children@.take(i + 1).drop_last() == node.children@.take(i as int));
        ids.append(&mut sub);
        i += 1;
    }
    assert(node.children@.take(i as int) == node.children@);
    ids
}

} // verus!
