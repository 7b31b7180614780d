//! The selection state machine and the dispatch table of the control loop.

use crate::event::{Event, Key};
use crate::text::{decimal, push_decimal};
use crate::tree::{collect_ids, lemma_preorder_ids_len, NodeId, TreeNode};
use vstd::prelude::*;

verus! {

/// The interaction mode.
#[derive(Clone, Copy, Debug, PartialEq, Eq, Structural)]
pub enum StateMode {
    /// Arrow keys change the selection.
    Browsing,
    /// Arrow keys move a container. The id is the one that was selected when
    /// the mode was entered.
    MovingContainer(NodeId),
}

/// What the control loop has to do after an event was dispatched.
#[derive(Debug, PartialEq, Eq)]
pub enum Action {
    /// Nothing beyond drawing the next frame.
    Proceed,
    /// Leave the loop.
    Quit,
    /// Send this command to the window manager.
    Command(String),
    /// Ask the window manager for its tree and hand it to
    /// [`State::update_tree`].
    Refresh,
}

/// An [`Action`] as contracts see it.
pub enum ActionView {
    Proceed,
    Quit,
    Command(Seq<char>),
    Refresh,
}

impl View for Action {
    type V = ActionView;

    open spec fn view(&self) -> ActionView {
        match self {
            Action::Proceed => ActionView::Proceed,
            Action::Quit => ActionView::Quit,
            Action::Command(command) => ActionView::Command(command@),
            Action::Refresh => ActionView::Refresh,
        }
    }
}

/// The command that moves the container `id` in `direction`.
pub open spec fn move_command(id: NodeId, direction: Seq<char>) -> Seq<char> {
    "[con_id=\""@ + decimal(id as int) + "\"] move "@ + direction
}

/// The command that toggles the split orientation of the container `id`.
pub open spec fn split_command(id: NodeId) -> Seq<char> {
    "[con_id=\""@ + decimal(id as int) + "\"] split toggle"@
}

/// The state of the dashboard as contracts see it.
pub struct StateView {
    /// The current snapshot of the container tree.
    pub node_tree: TreeNode,
    /// The id of the selected container.
    pub selected: NodeId,
    /// The ids of the snapshot, in pre-order.
    pub node_ids: Seq<NodeId>,
    pub mode: StateMode,
}

impl StateView {
    /// `node_ids` is the pre-order list of `node_tree`.
    pub open spec fn wf(self) -> bool {
        self.node_ids == self.node_tree.preorder_ids()
    }

    /// The state in which the dashboard starts on the snapshot `tree`: the
    /// root is selected, the mode is browsing.
    pub open spec fn initial(tree: TreeNode) -> StateView {
        StateView {
            node_tree: tree,
            selected: tree.id,
            node_ids: tree.preorder_ids(),
            mode: StateMode::Browsing,
        }
    }

    /// The snapshot is replaced by `tree`. Selection and mode stay as they
    /// are, whether or not the selected id occurs in `tree`.
    pub open spec fn update_tree(self, tree: TreeNode) -> StateView {
        StateView { node_tree: tree, node_ids: tree.preorder_ids(), ..self }
    }

    /// The selection moves to the id that follows the first occurrence of the
    /// selected id in `node_ids`. It stays where it is if nothing follows or
    /// the selected id does not occur.
    pub open spec fn select_next(self) -> StateView {
        match self.node_ids.index_of_first(self.selected) {
            Some(i) => if i + 1 < self.node_ids.len() {
                StateView { selected: self.node_ids[i + 1], ..self }
            } else {
                self
            },
            None => self,
        }
    }

    /// The selection moves to the id that precedes the last occurrence of the
    /// selected id in `node_ids`. It stays where it is if nothing precedes or
    /// the selected id does not occur.
    pub open spec fn select_previous(self) -> StateView {
        match self.node_ids.index_of_last(self.selected) {
            Some(i) => if i > 0 {
                StateView { selected: self.node_ids[i - 1], ..self }
            } else {
                self
            },
            None => self,
        }
    }

    /// Browsing turns into moving the selected container; moving turns into
    /// browsing.
    pub open spec fn move_mode(self) -> StateView {
        match self.mode {
            StateMode::Browsing => StateView {
                mode: StateMode::MovingContainer(self.selected),
                ..self
            },
            StateMode::MovingContainer(_) => StateView { mode: StateMode::Browsing, ..self },
        }
    }

    /// What a key does while browsing.
    pub open spec fn browse(self, key: Key) -> (StateView, ActionView) {
        match key {
            Key::Char(c) => if c == 'q' {
                (self, ActionView::Quit)
            } else if c == 'm' {
                (self.move_mode(), ActionView::Proceed)
            } else if c == 's' {
                (self, ActionView::Command(split_command(self.selected)))
            } else {
                (self, ActionView::Proceed)
            },
            Key::Down => (self.select_next(), ActionView::Proceed),
            Key::Up => (self.select_previous(), ActionView::Proceed),
            _ => (self, ActionView::Proceed),
        }
    }

    /// What a key does while a container is being moved.
    pub open spec fn steer(self, key: Key) -> (StateView, ActionView) {
        match key {
            Key::Char(c) => if c == 'q' {
                (self, ActionView::Quit)
            } else if c == 's' {
                (self, ActionView::Command(split_command(self.selected)))
            } else {
                (self, ActionView::Proceed)
            },
            Key::Esc => (self.move_mode(), ActionView::Proceed),
            Key::Down => (self, ActionView::Command(move_command(self.selected, "down"@))),
            Key::Up => (self, ActionView::Command(move_command(self.selected, "up"@))),
            Key::Left => (self, ActionView::Command(move_command(self.selected, "left"@))),
            Key::Right => (self, ActionView::Command(move_command(self.selected, "right"@))),
            _ => (self, ActionView::Proceed),
        }
    }

    /// The dispatch table of the control loop: the state after `event` and
    /// what the loop has to do.
    pub open spec fn dispatch(self, event: Event<Key>) -> (StateView, ActionView) {
        match event {
            Event::Input(key) => match self.mode {
                StateMode::Browsing => self.browse(key),
                StateMode::MovingContainer(_) => self.steer(key),
            },
            Event::Tick => (self, ActionView::Proceed),
            Event::I3 => (self, ActionView::Refresh),
        }
    }
}

/// Where the selected id first occurs at position `i` of the list,
/// `select_next` moves the selection to position `i + 1`; at the end of the
/// list it changes nothing. Nothing but the selection ever changes.
pub proof fn lemma_select_next(s: StateView, i: int)
    requires
        0 <= i < s.node_ids.len(),
        s.node_ids[i] == s.selected,
        forall|j: int| 0 <= j < i ==> s.node_ids[j] != s.selected,
    ensures
        i + 1 == s.node_ids.len() ==> s.select_next() == s,
        i + 1 < s.node_ids.len() ==> s.select_next() == (StateView {
            selected: s.node_ids[i + 1],
            ..s
        }),
{
    s.node_ids.index_of_first_ensures(s.selected);
}

/// Where the selected id last occurs at position `i` of the list,
/// `select_previous` moves the selection to position `i - 1`; at the start of
/// the list it changes nothing. Nothing but the selection ever changes.
pub proof fn lemma_select_previous(s: StateView, i: int)
    requires
        0 <= i < s.node_ids.len(),
        s.node_ids[i] == s.selected,
        forall|j: int| i < j < s.node_ids.len() ==> s.node_ids[j] != s.selected,
    ensures
        i == 0 ==> s.select_previous() == s,
        i > 0 ==> s.select_previous() == (StateView { selected: s.node_ids[i - 1], ..s }),
{
    s.node_ids.index_of_last_ensures(s.selected);
}

/// Where the selected id does not occur in the list, neither `select_next`
/// nor `select_previous` changes anything.
pub proof fn lemma_select_absent(s: StateView)
    requires
        !s.node_ids.contains(s.selected),
    ensures
        s.select_next() == s,
        s.select_previous() == s,
{
    s.node_ids.index_of_first_ensures(s.selected);
    s.node_ids.index_of_last_ensures(s.selected);
}

/// Entering the move mode and leaving it again restores the state: from
/// browsing, two calls of `move_mode` change nothing.
pub proof fn lemma_move_mode_twice(s: StateView)
    requires
        s.mode == StateMode::Browsing,
    ensures
        s.move_mode().mode == StateMode::MovingContainer(s.selected),
        s.move_mode().move_mode() == s,
{
}

/// A selection that is an id of the snapshot remains one under
/// `select_next`, `select_previous` and `move_mode`, and these keep the list
/// of ids that of the snapshot.
pub proof fn lemma_selection_stays_in_tree(s: StateView)
    requires
        s.wf(),
        s.node_ids.contains(s.selected),
    ensures
        s.select_next().wf() && s.node_ids.contains(s.select_next().selected),
        s.select_previous().wf() && s.node_ids.contains(s.select_previous().selected),
        s.move_mode().wf() && s.node_ids.contains(s.move_mode().selected),
{
    s.node_ids.index_of_first_ensures(s.selected);
    s.node_ids.index_of_last_ensures(s.selected);
}

/// A freshly started dashboard selects an id of its snapshot: the root's,
/// which stands first in the list.
pub proof fn lemma_initial_selection(tree: TreeNode)
    ensures
        StateView::initial(tree).wf(),
        StateView::initial(tree).node_ids.len() > 0,
        StateView::initial(tree).node_ids[0] == StateView::initial(tree).selected,
        StateView::initial(tree).node_ids.contains(StateView::initial(tree).selected),
{
    lemma_preorder_ids_len(tree);
}

/// The quit key ends the loop in either mode and changes nothing.
pub proof fn lemma_quit_in_any_mode(s: StateView)
    ensures
        s.dispatch(Event::Input(Key::Char('q'))) == (s, ActionView::Quit),
{
}

/// No event touches the snapshot: dispatching leaves the tree and the list of
/// its ids as they are. Only `update_tree` replaces them.
pub proof fn lemma_dispatch_keeps_snapshot(s: StateView, event: Event<Key>)
    ensures
        s.dispatch(event).0.node_tree == s.node_tree,
        s.dispatch(event).0.node_ids == s.node_ids,
        s.wf() ==> s.dispatch(event).0.wf(),
{
}

/// The position at which `id` first occurs in `ids`.
fn position(ids: &Vec<NodeId>, id: NodeId) -> (found: Option<usize>)
    ensures
        match found {
            Some(i) => i < ids.len() && ids@.index_of_first(id) == Some(i as int),
            None => ids@.index_of_first(id) is None,
        },
{
    let mut i: usize = 0;
    while i < ids.len()
        invariant
            i <= ids.len(),
            forall|j: int| 0 <= j < i ==> ids@[j] != id,
        decreases ids.len() - i,
    {
        if ids[i] == id {
            proof {
                ids@.index_of_first_ensures(id);
            }
            return Some(i);
        }
        i += 1;
    }
    proof {
        ids@.index_of_first_ensures(id);
    }
    None
}

/// The position at which `id` last occurs in `ids`.
fn rposition(ids: &Vec<NodeId>, id: NodeId) -> (found: Option<usize>)
    ensures
        match found {
            Some(i) => i < ids.len() && ids@.index_of_last(id) == Some(i as int),
            None => ids@.index_of_last(id) is None,
        },
{
    let mut i: usize = ids.len();
    while i > 0
        invariant
            i <= ids.len(),
            forall|j: int| i <= j < ids.len() ==> ids@[j] != id,
        decreases i,
    {
        i -= 1;
        if ids[i] == id {
            proof {
                ids@.index_of_last_ensures(id);
            }
            return Some(i);
        }
    }
    proof {
        ids@.index_of_last_ensures(id);
    }
    None
}

/// The state of the dashboard: the snapshot of the tree, the selection and
/// the mode. The list of ids always belongs to the snapshot that is held.
pub struct State {
    node_tree: TreeNode,
    selected: NodeId,
    node_ids: Vec<NodeId>,
    mode: StateMode,
}

impl View for State {
    type V = StateView;

    closed spec fn view(&self) -> StateView {
        StateView {
            node_tree: self.node_tree,
            selected: self.selected,
            node_ids: self.node_ids@,
            mode: self.mode,
        }
    }
}

impl State {
    #[verifier::type_invariant]
    spec fn ids_belong_to_tree(&self) -> bool {
        self.node_ids@ == self.node_tree.preorder_ids()
    }

    /// The state in which the dashboard starts on the snapshot `tree`.
    pub fn new(tree: TreeNode) -> (state: State)
        ensures
            state@ == StateView::initial(tree),
            state@.wf(),
    {
        let node_ids = collect_ids(&tree);
        State { selected: tree.id, node_ids, node_tree: tree, mode: StateMode::Browsing }
    }

    /// The current snapshot.
    pub fn node_tree(&self) -> (tree: &TreeNode)
        ensures
            *tree == self@.node_tree,
            self@.wf(),
    {
        proof {
            use_type_invariant(self);
        }
        &self.node_tree
    }

    /// The id of the selected container.
    pub fn selected(&self) -> (id: NodeId)
        ensures
            id == self@.selected,
    {
        self.selected
    }

    /// The ids of the current snapshot, in pre-order.
    pub fn node_ids(&self) -> (ids: &Vec<NodeId>)
        ensures
            ids@ == self@.node_ids,
            self@.wf(),
    {
        proof {
            use_type_invariant(self);
        }
        &self.node_ids
    }

    /// The interaction mode.
    pub fn mode(&self) -> (mode: StateMode)
        ensures
            mode == self@.mode,
    {
        self.mode
    }

    /// Replaces the snapshot by `tree`.
    pub fn update_tree(&mut self, tree: TreeNode)
        ensures
            final(self)@ == old(self)@.update_tree(tree),
            final(self)@.wf(),
    {
        let node_ids = collect_ids(&tree);
        *self = State { node_tree: tree, selected: self.selected, node_ids, mode: self.mode };
    }

    /// Moves the selection one row down.
    pub fn select_next(&mut self)
        ensures
            final(self)@ == old(self)@.select_next(),
            final(self)@.wf(),
    {
        proof {
            use_type_invariant(&*self);
        }
        if let Some(current) = position(&self.node_ids, self.selected) {
            if current + 1 < self.node_ids.len() {
                self.selected = self.node_ids[current + 1];
            }
        }
    }

    /// Moves the selection one row up.
    pub fn select_previous(&mut self)
        ensures
            final(self)@ == old(self)@.select_previous(),
            final(self)@.wf(),
    {
        proof {
            use_type_invariant(&*self);
        }
        if let Some(current) = rposition(&self.node_ids, self.selected) {
            if current > 0 {
                self.selected = self.node_ids[current - 1];
            }
        }
    }

    /// Enters or leaves the mode in which arrow keys move the selected
    /// container.
    pub fn move_mode(&mut self)
        ensures
            final(self)@ == old(self)@.move_mode(),
            final(self)@.wf(),
    {
        proof {
            use_type_invariant(&*self);
        }
        match self.mode {
            StateMode::Browsing => {
                self.mode = StateMode::MovingContainer(self.selected);
            },
            StateMode::MovingContainer(_) => {
                self.mode = StateMode::Browsing;
            },
        }
    }

    /// The command that moves the selected container in `direction`.
    pub fn move_container(&self, direction: &str) -> (command: String)
        ensures
            command@ == move_command(self@.selected, direction@),
    {
        let mut command = String::from_str("[con_id=\"");
        push_decimal(&mut command, self.selected);
        command.append("\"] move ");
        command.append(direction);
        command
    }

    /// The command that toggles the split orientation of the selected
    /// container.
    pub fn split_toggle(&self) -> (command: String)
        ensures
            command@ == split_command(self@.selected),
    {
        let mut command = String::from_str("[con_id=\"");
        push_decimal(&mut command, self.selected);
        command.append("\"] split toggle");
        command
    }

    /// Applies `event` to the state and says what the control loop has to do.
    pub fn dispatch(&mut self, event: Event<Key>) -> (action: Action)
        ensures
            (final(self)@, action@) == old(self)@.dispatch(event),
            final(self)@.wf(),
    {
        proof {
            use_type_invariant(&*self);
        }
        match event {
            Event::Input(key) => match self.mode {
                StateMode::Browsing => match key {
                    Key::Char('q') => Action::Quit,
                    Key::Down => {
                        self.select_next();
                        Action::Proceed
                    },
                    Key::Up => {
                        self.select_previous();
                        Action::Proceed
                    },
                    Key::Char('m') => {
                        self.move_mode();
                        Action::Proceed
                    },
                    Key::Char('s') => Action::Command(self.split_toggle()),
                    _ => Action::Proceed,
                },
                StateMode::MovingContainer(_) => match key {
                    Key::Char('q') => Action::Quit,
                    Key::Esc => {
                        self.move_mode();
                        Action::Proceed
                    },
                    Key::Down => Action::Command(self.move_container("down")),
                    Key::Up => Action::Command(self.move_container("up")),
                    Key::Left => Action::Command(self.move_container("left")),
                    Key::Right => Action::Command(self.move_container("right")),
                    Key::Char('s') => Action::Command(self.split_toggle()),
                    _ => Action::Proceed,
                },
            },
            Event::Tick => Action::Proceed,
            Event::I3 => Action::Refresh,
        }
    }
}

} // verus!
