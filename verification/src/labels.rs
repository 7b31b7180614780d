//! Tags of container kinds and layouts, as i3ipc prints them.

use crate::tree::{NodeLayout, NodeType};
use vstd::prelude::*;

verus! {

/// The tag of a container kind: the `Debug` text of the variant of
/// `i3ipc::reply::NodeType` that has the same name. That type derives `Debug`
/// and its variants carry no fields, so the text is the variant's name. The
/// contract is taken on trust from i3ipc's source.
#[verifier::external_body]
pub(crate) fn node_type_label(node_type: NodeType) -> (label: String)
    ensures
        label@ == node_type.name(),
{
    let outside = match node_type {
        NodeType::Root => i3ipc::reply::NodeType::Root,
        NodeType::Output => i3ipc::reply::NodeType::Output,
        NodeType::Con => i3ipc::reply::NodeType::Con,
        NodeType::FloatingCon => i3ipc::reply::NodeType::FloatingCon,
        NodeType::Workspace => i3ipc::reply::NodeType::Workspace,
        NodeType::DockArea => i3ipc::reply::NodeType::DockArea,
        NodeType::Unknown => i3ipc::reply::NodeType::Unknown,
    };
    format!("{:?}", outside)
}

/// The tag of a layout: the `Debug` text of the variant of
/// `i3ipc::reply::NodeLayout` that has the same name. That type derives
/// `Debug` and its variants carry no fields, so the text is the variant's
/// name. The contract is taken on trust from i3ipc's source.
#[verifier::external_body]
pub(crate) fn layout_label(layout: NodeLayout) -> (label: String)
    ensures
        label@ == layout.name(),
{
    let outside = match layout {
        NodeLayout::SplitH => i3ipc::reply::NodeLayout::SplitH,
        NodeLayout::SplitV => i3ipc::reply::NodeLayout::SplitV,
        NodeLayout::Stacked => i3ipc::reply::NodeLayout::Stacked,
        NodeLayout::Tabbed => i3ipc::reply::NodeLayout::Tabbed,
        NodeLayout::DockArea => i3ipc::reply::NodeLayout::DockArea,
        NodeLayout::Output => i3ipc::reply::NodeLayout::Output,
        NodeLayout::Unknown => i3ipc::reply::NodeLayout::Unknown,
    };
    format!("{:?}", outside)
}

} // verus!
