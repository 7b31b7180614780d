//! Navigation core of a terminal dashboard for the i3 container tree.
//!
//! The crate holds the parts of the dashboard that decide something: the
//! snapshot of the container tree and its pre-order list of ids, the
//! selection state machine, the dispatch table of the control loop, the
//! flattening of the tree into display rows, and the ordered queue that merges
//! the keyboard, the ticker and the window manager's notifications. Reading
//! keys, talking to the window manager and drawing on the terminal are left to
//! the program that uses the crate.

pub mod event;
mod labels;
pub mod state;
pub mod text;
pub mod tree;
pub mod ui;

pub use event::{Config, Event, Events, EventsView, Flow, Key, Producer, RecvError};
pub use state::{Action, ActionView, State, StateMode, StateView};
pub use tree::{collect_ids, NodeId, NodeLayout, NodeType, TreeNode};
pub use ui::{
    build_menu_span, build_menu_widget, node_into_ui_list, render, Context, DisplayRow, Frame,
    MenuSpan, SpanStyle, TreeLevel, UiNode,
};
