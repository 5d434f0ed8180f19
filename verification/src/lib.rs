//! Core pass infrastructure for a retained-mode widget toolkit.
//!
//! The crate centres on the bookkeeping that a widget tree needs while it is
//! walked by the four tree passes (event, lifecycle, layout, paint):
//!
//! * [`geometry`] — integer device-pixel points, sizes, insets and rectangles;
//! * [`widget`] — per-node [`widget::WidgetState`] bookkeeping, the
//!   [`widget::WidgetPod`] ownership wrapper and the `merge_up` propagation
//!   primitive;
//! * [`command`] — the selector/payload/target messages that widgets queue
//!   during a pass;
//! * [`text_input`] — bookkeeping for widgets that accept text input;
//! * [`contexts`] — the per-pass context types handed to widget code, all
//!   sharing one [`contexts::GlobalPassCtx`];
//! * [`widget_mut`] — the scoped mutation handle that merges invalidation
//!   flags into every enclosing widget when a mutation scope is closed;
//! * [`window`] — the window-level driver: the widget tree in depth-first
//!   order and the focus-manager bookkeeping;
//! * [`dispatch`] — checking widgets in and out of the tree for event
//!   handling, with bottom-up propagation of their invalidations;
//! * [`epilogue`] — the end-of-pass bookkeeping: disabled changes take
//!   effect, the collected focus request is resolved, the focus chain is
//!   rebuilt and the focus pointer is validated;
//! * [`tree`] — adding a child widget and removing a subtree;
//! * [`focus`] — resolution of focus-change requests against the focus chain.

#![verifier::rlimit(100)]

pub mod command;
pub mod contexts;
pub mod dispatch;
pub mod epilogue;
pub mod focus;
pub mod geometry;
pub mod text_input;
pub mod tree;
pub mod widget;
pub mod widget_mut;
pub mod window;
