//! Flattening of the container tree into display rows, and the menu line.

use crate::labels::{layout_label, node_type_label};
use crate::state::{State, StateMode};
use crate::tree::{forest_count, forest_ids, NodeId, TreeNode};
use vstd::prelude::*;

verus! {

/// Position of a container among its siblings.
#[derive(Clone, Copy, Debug, PartialEq, Eq, Structural)]
pub enum TreeLevel {
    /// The root of the tree: it has no siblings.
    Root,
    /// A child that has a sibling after it.
    Branch,
    /// The last child of its parent. It may have children of its own.
    Leaf,
}

impl TreeLevel {
    /// What a container at this position puts before its descendants' rows,
    /// under its own glyph.
    pub open spec fn fill(self) -> Seq<char> {
        match self {
            TreeLevel::Root => Seq::empty(),
            TreeLevel::Branch => "│  "@,
            TreeLevel::Leaf => "   "@,
        }
    }

    /// The glyph that joins a container at this position to its parent.
    pub open spec fn glyph(self) -> Seq<char> {
        match self {
            TreeLevel::Root => Seq::empty(),
            TreeLevel::Branch => "├──"@,
            TreeLevel::Leaf => "└──"@,
        }
    }
}

/// What the traversal carries down to a container.
#[derive(Debug, PartialEq, Eq)]
pub struct Context {
    /// The indentation that the container's ancestors have built up.
    pub ancestors_indent: String,
    /// The container's position among its siblings.
    pub level: TreeLevel,
    /// The id of the selected container, if there is a selection.
    pub selected_id: Option<NodeId>,
}

/// A [`Context`] as contracts see it.
pub struct ContextView {
    pub ancestors_indent: Seq<char>,
    pub level: TreeLevel,
    pub selected_id: Option<NodeId>,
}

impl View for Context {
    type V = ContextView;

    open spec fn view(&self) -> ContextView {
        ContextView {
            ancestors_indent: self.ancestors_indent@,
            level: self.level,
            selected_id: self.selected_id,
        }
    }
}

impl ContextView {
    /// The context of the root when `selected_id` is selected.
    pub open spec fn root(selected_id: Option<NodeId>) -> ContextView {
        ContextView { ancestors_indent: Seq::empty(), level: TreeLevel::Root, selected_id }
    }

    /// The indentation of the rows below the container.
    pub open spec fn descendant_indent(self) -> Seq<char> {
        self.ancestors_indent + self.level.fill()
    }

    /// What stands before the container's own entry: the ancestors'
    /// indentation, then the container's glyph.
    pub open spec fn full_entry(self) -> Seq<char> {
        self.ancestors_indent + self.level.glyph()
    }

    /// The context of the container's last child.
    pub open spec fn to_leaf(self) -> ContextView {
        ContextView {
            ancestors_indent: self.descendant_indent(),
            level: TreeLevel::Leaf,
            selected_id: self.selected_id,
        }
    }

    /// The context of each child of the container but the last.
    pub open spec fn to_branch(self) -> ContextView {
        ContextView {
            ancestors_indent: self.descendant_indent(),
            level: TreeLevel::Branch,
            selected_id: self.selected_id,
        }
    }
}

impl Default for Context {
    /// The context of the root, with nothing selected.
    fn default() -> (context: Context)
        ensures
            context@ == ContextView::root(None),
    {
        Context { ancestors_indent: String::new(), level: TreeLevel::Root, selected_id: None }
    }
}

impl Context {
    /// The context of the root when `selected_id` is selected.
    pub fn root(selected_id: Option<NodeId>) -> (context: Context)
        ensures
            context@ == ContextView::root(selected_id),
    {
        Context { ancestors_indent: String::new(), level: TreeLevel::Root, selected_id }
    }

    /// The indentation of the rows below the container.
    pub fn descendant_indent(&self) -> (indent: String)
        ensures
            indent@ == self@.descendant_indent(),
    {
        let fill = match self.level {
            TreeLevel::Root => "",
            TreeLevel::Branch => "│  ",
            TreeLevel::Leaf => "   ",
        };
        proof {
            reveal_strlit("");
        }
        let mut indent = self.ancestors_indent.clone();
        indent.append(fill);
        indent
    }

    /// The glyph that joins the container to its parent.
    pub fn glyph(&self) -> (glyph: String)
        ensures
            glyph@ == self@.level.glyph(),
    {
        match self.level {
            TreeLevel::Root => String::new(),
            TreeLevel::Branch => String::from_str("├──"),
            TreeLevel::Leaf => String::from_str("└──"),
        }
    }

    /// What stands before the container's own entry.
    pub fn full_entry(&self) -> (entry: String)
        ensures
            entry@ == self@.full_entry(),
    {
        let mut entry = self.ancestors_indent.clone();
        let glyph = self.glyph();
        entry.append(glyph.as_str());
        entry
    }

    /// The context of the container's last child.
    pub fn to_leaf(&self) -> (context: Context)
        ensures
            context@ == self@.to_leaf(),
    {
        Context {
            ancestors_indent: self.descendant_indent(),
            level: TreeLevel::Leaf,
            selected_id: self.selected_id,
        }
    }

    /// The context of each child of the container but the last.
    pub fn to_branch(&self) -> (context: Context)
        ensures
            context@ == self@.to_branch(),
    {
        Context {
            ancestors_indent: self.descendant_indent(),
            level: TreeLevel::Branch,
            selected_id: self.selected_id,
        }
    }
}

/// A container prepared for display.
#[derive(Debug, PartialEq, Eq)]
pub struct UiNode {
    pub con_id: NodeId,
    /// The container's name, empty where it has none.
    pub name: String,
    /// What stands before the container's entry.
    pub indentation: String,
    /// The tag of the container's kind.
    pub node_type: String,
    /// The tag of the container's layout.
    pub layout: String,
    pub focused: bool,
    pub urgent: bool,
}

/// A [`UiNode`] as contracts see it.
pub struct UiNodeView {
    pub con_id: NodeId,
    pub name: Seq<char>,
    pub indentation: Seq<char>,
    pub node_type: Seq<char>,
    pub layout: Seq<char>,
    pub focused: bool,
    pub urgent: bool,
}

impl View for UiNode {
    type V = UiNodeView;

    open spec fn view(&self) -> UiNodeView {
        UiNodeView {
            con_id: self.con_id,
            name: self.name@,
            indentation: self.indentation@,
            node_type: self.node_type@,
            layout: self.layout@,
            focused: self.focused,
            urgent: self.urgent,
        }
    }
}

impl UiNodeView {
    /// The container `node`, to be listed behind `indentation`.
    pub open spec fn of(node: TreeNode, indentation: Seq<char>) -> UiNodeView {
        UiNodeView {
            con_id: node.id,
            name: match node.name {
                Some(name) => name@,
                None => Seq::empty(),
            },
            indentation,
            node_type: node.node_type.name(),
            layout: node.layout.name(),
            focused: node.focused,
            urgent: node.urgent,
        }
    }

    /// The line that lists the container: the indentation, the kind in square
    /// brackets, the layout in braces, a dash, the name.
    pub open spec fn text(self) -> Seq<char> {
        self.indentation + "["@ + self.node_type + "] {"@ + self.layout + "} - "@ + self.name
    }
}

impl UiNode {
    /// Prepares `node` for display behind `indentation`.
    pub fn from(node: &TreeNode, indentation: String) -> (ui_node: UiNode)
        ensures
            ui_node@ == UiNodeView::of(*node, indentation@),
    {
        let name = match &node.name {
            Some(name) => name.clone(),
            None => String::new(),
        };
        UiNode {
            con_id: node.id,
            name,
            layout: layout_label(node.layout),
            node_type: node_type_label(node.node_type),
            focused: node.focused,
            urgent: node.urgent,
            indentation,
        }
    }

    /// The line that lists the container.
    pub fn text(&self) -> (text: String)
        ensures
            text@ == self@.text(),
    {
        let mut text = self.indentation.clone();
        text.append("[");
        text.append(self.node_type.as_str());
        text.append("] {");
        text.append(self.layout.as_str());
        text.append("} - ");
        text.append(self.name.as_str());
        text
    }
}

/// One line of the tree panel.
#[derive(Debug, PartialEq, Eq)]
pub struct DisplayRow {
    /// The whole line, indentation included.
    pub text: String,
    /// The part of the line that stands before the container's entry.
    pub indentation_prefix: String,
    /// Whether the row shows the selected container.
    pub highlighted: bool,
    /// Whether the row shows a focused container.
    pub focused_style: bool,
    /// Whether the row shows an urgent container.
    pub urgent_style: bool,
}

/// A [`DisplayRow`] as contracts see it.
pub struct DisplayRowView {
    pub text: Seq<char>,
    pub indentation_prefix: Seq<char>,
    pub highlighted: bool,
    pub focused_style: bool,
    pub urgent_style: bool,
}

impl View for DisplayRow {
    type V = DisplayRowView;

    open spec fn view(&self) -> DisplayRowView {
        DisplayRowView {
            text: self.text@,
            indentation_prefix: self.indentation_prefix@,
            highlighted: self.highlighted,
            focused_style: self.focused_style,
            urgent_style: self.urgent_style,
        }
    }
}

/// The views of `rows`, row by row.
pub open spec fn row_views(rows: Seq<DisplayRow>) -> Seq<DisplayRowView> {
    Seq::new(rows.len(), |i: int| rows[i]@)
}

/// The row of the container `node` when the traversal reaches it with
/// `context`.
pub open spec fn row_of(node: TreeNode, context: ContextView) -> DisplayRowView {
    DisplayRowView {
        text: UiNodeView::of(node, context.full_entry()).text(),
        indentation_prefix: context.full_entry(),
        highlighted: context.selected_id == Some(node.id),
        focused_style: node.focused,
        urgent_style: node.urgent,
    }
}

/// The rows of the tree rooted at `node`, reached with `context`: the row of
/// `node`, then the rows of its children's trees, first child first.
pub open spec fn rows_of(node: TreeNode, context: ContextView) -> Seq<DisplayRowView>
    decreases node,
{
    seq![row_of(node, context)] + child_rows(node.children@, context)
}

/// The rows of all the children of a container that was reached with
/// `context`: every child but the last is a branch, the last one is a leaf.
pub open spec fn child_rows(children: Seq<TreeNode>, context: ContextView) -> Seq<
    DisplayRowView,
>
    decreases children,
{
    if children.len() == 0 {
        Seq::empty()
    } else {
        sibling_rows(children.drop_last(), context.to_branch()) + rows_of(
            children.last(),
            context.to_leaf(),
        )
    }
}

/// The rows of the trees rooted at `nodes`, one tree after the other, each
/// reached with `context`.
pub open spec fn sibling_rows(nodes: Seq<TreeNode>, context: ContextView) -> Seq<
    DisplayRowView,
>
    decreases nodes,
{
    if nodes.len() == 0 {
        Seq::empty()
    } else {
        sibling_rows(nodes.drop_last(), context) + rows_of(nodes.last(), context)
    }
}

/// The context with which the traversal reaches child `i` of a container
/// that has `n` children and was itself reached with `context`.
pub open spec fn child_context(context: ContextView, i: int, n: int) -> ContextView {
    if i + 1 == n {
        context.to_leaf()
    } else {
        context.to_branch()
    }
}

/// Every container yields exactly one row, and the rows stand in pre-order:
/// row `k` belongs to the `k`-th id of the pre-order list, and it is
/// highlighted exactly if that id is the selected one.
pub proof fn lemma_rows_follow_preorder(node: TreeNode, context: ContextView)
    ensures
        rows_of(node, context).len() == node.node_count(),
        rows_of(node, context).len() == node.preorder_ids().len(),
        rows_of(node, context)[0] == row_of(node, context),
        forall|k: int|
            0 <= k < rows_of(node, context).len() ==> (#[trigger] rows_of(
                node,
                context,
            )[k]).highlighted == (context.selected_id == Some(node.preorder_ids()[k])),
    decreases node, 1int,
{
    lemma_child_rows_follow_preorder(node.children@, context);
}

/// The rows of a container's children stand in the pre-order of the
/// children's trees, one row per container.
pub proof fn lemma_child_rows_follow_preorder(children: Seq<TreeNode>, context: ContextView)
    ensures
        child_rows(children, context).len() == forest_count(children),
        child_rows(children, context).len() == forest_ids(children).len(),
        forall|k: int|
            0 <= k < child_rows(children, context).len() ==> (#[trigger] child_rows(
                children,
                context,
            )[k]).highlighted == (context.selected_id == Some(forest_ids(children)[k])),
    decreases children, 0int,
{
    if children.len() > 0 {
        lemma_sibling_rows_follow_preorder(children.drop_last(), context.to_branch());
        lemma_rows_follow_preorder(children.last(), context.to_leaf());
    }
}

/// The rows of sibling trees stand in the pre-order of those trees, one row
/// per container.
pub proof fn lemma_sibling_rows_follow_preorder(nodes: Seq<TreeNode>, context: ContextView)
    ensures
        sibling_rows(nodes, context).len() == forest_count(nodes),
        sibling_rows(nodes, context).len() == forest_ids(nodes).len(),
        forall|k: int|
            0 <= k < sibling_rows(nodes, context).len() ==> (#[trigger] sibling_rows(
                nodes,
                context,
            )[k]).highlighted == (context.selected_id == Some(forest_ids(nodes)[k])),
    decreases nodes, 0int,
{
    if nodes.len() > 0 {
        lemma_sibling_rows_follow_preorder(nodes.drop_last(), context);
        lemma_rows_follow_preorder(nodes.last(), context);
    }
}

/// The rows of the `i`-th of some sibling trees stand together, behind the
/// rows of the trees before it.
pub proof fn lemma_sibling_rows_of_tree(nodes: Seq<TreeNode>, context: ContextView, i: int)
    requires
        0 <= i < nodes.len(),
    ensures
        forest_count(nodes.take(i)) + nodes[i].node_count() == forest_count(nodes.take(i + 1)),
        forest_count(nodes.take(i + 1)) <= sibling_rows(nodes, context).len(),
        sibling_rows(nodes, context).subrange(
            forest_count(nodes.take(i)) as int,
            forest_count(nodes.take(i + 1)) as int,
        ) == rows_of(nodes[i], context),
    decreases nodes.len(),
{
    let front = nodes.drop_last();
    lemma_sibling_rows_follow_preorder(front, context);
    lemma_sibling_rows_follow_preorder(nodes, context);
    lemma_rows_follow_preorder(nodes.last(), context);
    if i + 1 == nodes.len() {
        assert(nodes.take(i + 1) == nodes);
    } else {
        lemma_sibling_rows_of_tree(front, context, i);
        assert(front.take(i) == nodes.take(i));
        assert(front.take(i + 1) == nodes.take(i + 1));
    }
}

/// Where a container's rows start, the rows of its `i`-th child stand
/// together behind the container's own row and the rows of the children
/// before it, and they are the rows of that child's tree reached as a branch,
/// or as a leaf if the child is the last one. So the child's own row is
/// indented by the container's fill and joined by `├──`, or by `└──` if it is
/// the last child.
pub proof fn lemma_rows_of_child(node: TreeNode, context: ContextView, i: int)
    requires
        0 <= i < node.children.len(),
    ensures
        ({
            let children = node.children@;
            let start = 1 + forest_count(children.take(i));
            let end = 1 + forest_count(children.take(i + 1));
            let inner = child_context(context, i, children.len() as int);
            &&& end == start + children[i].node_count()
            &&& end <= rows_of(node, context).len()
            &&& rows_of(node, context).subrange(start as int, end as int) == rows_of(
                children[i],
                inner,
            )
            &&& rows_of(node, context)[start as int] == row_of(children[i], inner)
            &&& rows_of(node, context)[start as int].indentation_prefix
                == context.descendant_indent() + (if i + 1 == children.len() {
                "└──"@
            } else {
                "├──"@
            })
        }),
{
    let children = node.children@;
    let front = children.drop_last();
    let inner = child_context(context, i, children.len() as int);
    lemma_sibling_rows_follow_preorder(front, context.to_branch());
    lemma_rows_follow_preorder(children.last(), context.to_leaf());
    lemma_rows_follow_preorder(children[i], inner);
    if i + 1 == children.len() {
        assert(children.take(i + 1) == children);
    } else {
        lemma_sibling_rows_of_tree(front, context.to_branch(), i);
        assert(front.take(i) == children.take(i));
        assert(front.take(i + 1) == children.take(i + 1));
    }
}

/// Flattens the tree rooted at `node` into rows, one per container, a
/// container before its children.
pub fn node_into_ui_list(node: &TreeNode, context: Context) -> (rows: Vec<DisplayRow>)
    ensures
        row_views(rows@) == rows_of(*node, context@),
    decreases node,
{
    let ui_node = UiNode::from(node, context.full_entry());
    let highlighted = match context.selected_id {
        Some(id) => id == node.id,
        None => false,
    };
    let root = DisplayRow {
        text: ui_node.text(),
        indentation_prefix: ui_node.indentation,
        highlighted,
        focused_style: node.focused,
        urgent_style: node.urgent,
    };
    let mut rows: Vec<DisplayRow> = Vec::new();
    rows.push(root);
    let n = node.children.len();
    if n > 0 {
        let mut i: usize = 0;
        while i < n - 1
            invariant
                n == node.children.len(),
                i <= n - 1,
                row_views(rows@) == seq![row_of(*node, context@)] + sibling_rows(
                    node.children@.take(i as int),
                    context@.to_branch(),
                ),
            decreases n - i,
        {
            let ghost before = rows@;
            let mut sub = node_into_ui_list(&node.children[i], context.to_branch());
            let ghost added = sub@;
            rows.append(&mut sub);
            assert(row_views(before + added) =~= row_views(before) + row_views(added));
            assert(node.children@.take(i + 1).drop_last() == node.children@.take(i as int));
            i += 1;
        }
        let ghost before = rows@;
        let mut sub = node_into_ui_list(&node.children[n - 1], context.to_leaf());
        let ghost added = sub@;
        rows.append(&mut sub);
        assert(row_views(before + added) =~= row_views(before) + row_views(added));
    }
    rows
}

/// How a stretch of the menu line is drawn.
#[derive(Clone, Copy, Debug, PartialEq, Eq, Structural)]
pub enum SpanStyle {
    /// As the terminal draws by default.
    Raw,
    /// With foreground and background exchanged.
    Reversed,
    /// In bold.
    Bold,
}

/// A stretch of the menu line.
#[derive(Debug, PartialEq, Eq)]
pub struct MenuSpan {
    pub text: String,
    pub style: SpanStyle,
}

/// A [`MenuSpan`] as contracts see it.
pub struct MenuSpanView {
    pub text: Seq<char>,
    pub style: SpanStyle,
}

impl View for MenuSpan {
    type V = MenuSpanView;

    open spec fn view(&self) -> MenuSpanView {
        MenuSpanView { text: self.text@, style: self.style }
    }
}

/// The views of `spans`, span by span.
pub open spec fn span_views(spans: Seq<MenuSpan>) -> Seq<MenuSpanView> {
    Seq::new(spans.len(), |i: int| spans[i]@)
}

/// The views of `actions`, pair by pair.
pub open spec fn action_views(actions: Seq<(&str, &str)>) -> Seq<(Seq<char>, Seq<char>)> {
    Seq::new(actions.len(), |i: int| (actions[i].0@, actions[i].1@))
}

/// The span that names the mode.
pub open spec fn mode_span(mode: Seq<char>) -> MenuSpanView {
    MenuSpanView { text: mode + " ┃"@, style: SpanStyle::Reversed }
}

/// The span that names the key of an action.
pub open spec fn key_span(key: Seq<char>) -> MenuSpanView {
    MenuSpanView { text: " "@ + key + " ∷ "@, style: SpanStyle::Bold }
}

/// The span that says what an action does.
pub open spec fn action_span(action: Seq<char>) -> MenuSpanView {
    MenuSpanView { text: action + " ┃"@, style: SpanStyle::Raw }
}

/// The menu line of the mode `mode` with the actions `actions`, each a key
/// and what it does: the mode's span, then for each action its key's span and
/// its description's span.
pub open spec fn menu_spans(mode: Seq<char>, actions: Seq<(Seq<char>, Seq<char>)>) -> Seq<
    MenuSpanView,
> {
    Seq::new(
        1 + 2 * actions.len(),
        |i: int|
            if i == 0 {
                mode_span(mode)
            } else if i % 2 == 1 {
                key_span(actions[(i - 1) / 2].0)
            } else {
                action_span(actions[(i - 1) / 2].1)
            },
    )
}

/// The menu line that is shown in the mode `mode`.
pub open spec fn menu_of(mode: StateMode) -> Seq<MenuSpanView> {
    match mode {
        StateMode::MovingContainer(_) => menu_spans(
            "Move"@,
            seq![
                ("ESC"@, "exit mode"@),
                ("UP"@, "move up"@),
                ("DOWN"@, "move down"@),
                ("LEFT"@, "move left"@),
                ("RIGHT"@, "move right"@),
            ],
        ),
        StateMode::Browsing => menu_spans(
            "Select"@,
            seq![("m"@, "move mode"@), ("s"@, "toggle split"@), ("q"@, "quit"@)],
        ),
    }
}

/// Builds the menu line of the mode `mode` with the actions `actions`.
pub fn build_menu_span(mode: &str, actions: Vec<(&str, &str)>) -> (spans: Vec<MenuSpan>)
    ensures
        span_views(spans@) == menu_spans(mode@, action_views(actions@)),
{
    let mut label = String::from_str(mode);
    label.append(" ┃");
    let mut spans: Vec<MenuSpan> = Vec::new();
    spans.push(MenuSpan { text: label, style: SpanStyle::Reversed });
    let ghost wanted = menu_spans(mode@, action_views(actions@));
    let mut i: usize = 0;
    while i < actions.len()
        invariant
            i <= actions.len(),
            wanted == menu_spans(mode@, action_views(actions@)),
            spans.len() == 1 + 2 * i,
            forall|k: int| 0 <= k < spans.len() ==> (#[trigger] spans@[k])@ == wanted[k],
        decreases actions.len() - i,
    {
        let (key, action) = actions[i];
        let mut key_text = String::from_str(" ");
        key_text.append(key);
        key_text.append(" ∷ ");
        let mut action_text = String::from_str(action);
        action_text.append(" ┃");
        spans.push(MenuSpan { text: key_text, style: SpanStyle::Bold });
        spans.push(MenuSpan { text: action_text, style: SpanStyle::Raw });
        i += 1;
    }
    spans
}

/// Builds the menu line for the mode that `state` is in.
pub fn build_menu_widget(state: &State) -> (spans: Vec<MenuSpan>)
    ensures
        span_views(spans@) == menu_of(state@.mode),
{
    match state.mode() {
        StateMode::MovingContainer(_) => {
            let actions = vec![
                ("ESC", "exit mode"),
                ("UP", "move up"),
                ("DOWN", "move down"),
                ("LEFT", "move left"),
                ("RIGHT", "move right"),
            ];
            build_menu_span("Move", actions)
        },
        StateMode::Browsing => {
            let actions = vec![("m", "move mode"), ("s", "toggle split"), ("q", "quit")];
            build_menu_span("Select", actions)
        },
    }
}

/// What one frame shows.
#[derive(Debug, PartialEq, Eq)]
pub struct Frame {
    /// The menu line, for the panel at the top.
    pub menu: Vec<MenuSpan>,
    /// The rows of the tree, for the panel below it.
    pub rows: Vec<DisplayRow>,
}

/// Computes the frame that shows `state`: the menu of its mode and the rows
/// of its snapshot. There is one row for each id of the state's list, in the
/// order of the list, and a row is highlighted exactly if its id is the
/// selected one.
pub fn render(state: &State) -> (frame: Frame)
    ensures
        span_views(frame.menu@) == menu_of(state@.mode),
        row_views(frame.rows@) == rows_of(
            state@.node_tree,
            ContextView::root(Some(state@.selected)),
        ),
        frame.rows@.len() == state@.node_ids.len(),
        forall|k: int|
            0 <= k < frame.rows@.len() ==> {
                (#[trigger] frame.rows@[k]).highlighted == (state@.node_ids[k] == state@.selected)
            },
{
    let rows = node_into_ui_list(state.node_tree(), Context::root(Some(state.selected())));
    let menu = build_menu_widget(state);
    proof {
        lemma_rows_follow_preorder(state@.node_tree, ContextView::root(Some(state@.selected)));
        assert forall|k: int| 0 <= k < rows@.len() implies {
            (#[trigger] rows@[k]).highlighted == (state@.node_ids[k] == state@.selected)
        } by {
            assert(row_views(rows@)[k] == rows@[k]@);
        }
    }
    Frame { menu, rows }
}

} // verus!
