use i3tree::{collect_ids, NodeLayout, NodeType, TreeNode};

fn tree_node(id: i64, children: Vec<TreeNode>) -> TreeNode {
    TreeNode {
        id,
        name: None,
        node_type: NodeType::Con,
        layout: NodeLayout::SplitH,
        focused: false,
        urgent: false,
        children,
    }
}

#[test]
fn collect_ids_single_node() {
    assert_eq!(collect_ids(&tree_node(7, vec![])), vec![7]);
}

#[test]
fn collect_ids_is_preorder() {
    let tree = tree_node(
        1,
        vec![
            tree_node(2, vec![tree_node(3, vec![]), tree_node(4, vec![])]),
            tree_node(5, vec![]),
            tree_node(6, vec![tree_node(7, vec![tree_node(8, vec![])])]),
        ],
    );
    assert_eq!(collect_ids(&tree), vec![1, 2, 3, 4, 5, 6, 7, 8]);
}

#[test]
fn collect_ids_lists_root_first_and_every_node_once() {
    let tree = tree_node(
        40,
        vec![
            tree_node(30, vec![tree_node(10, vec![])]),
            tree_node(20, vec![]),
        ],
    );
    let ids = collect_ids(&tree);
    assert_eq!(ids.len(), 4);
    assert_eq!(ids[0], 40);
    assert_eq!(ids, vec![40, 30, 10, 20]);
}

#[test]
fn collect_ids_deep_chain() {
    let mut tree = tree_node(100, vec![]);
    for id in (0..100).rev() {
        tree = tree_node(id, vec![tree]);
    }
    let expected: Vec<i64> = (0..=100).collect();
    assert_eq!(collect_ids(&tree), expected);
}

#[test]
fn collect_ids_wide_tree() {
    let children: Vec<TreeNode> = (1..=10).map(|id| tree_node(id, vec![])).collect();
    let tree = tree_node(0, children);
    let expected: Vec<i64> = (0..=10).collect();
    assert_eq!(collect_ids(&tree), expected);
}

#[test]
fn collect_ids_keeps_repeated_ids() {
    let tree = tree_node(1, vec![tree_node(2, vec![]), tree_node(2, vec![]), tree_node(1, vec![])]);
    assert_eq!(collect_ids(&tree), vec![1, 2, 2, 1]);
}

#[test]
fn collect_ids_negative_and_extreme_ids() {
    let tree = tree_node(i64::MIN, vec![tree_node(-1, vec![]), tree_node(i64::MAX, vec![])]);
    assert_eq!(collect_ids(&tree), vec![i64::MIN, -1, i64::MAX]);
}
