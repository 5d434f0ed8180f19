//! Bookkeeping for widgets that accept text input.
//!
//! A widget registers itself as accepting text input while it is being added
//! to the tree. It does not explicitly deregister afterwards; rather, anytime
//! the tree changes, the window driver polls [`TextFieldRegistration::is_alive`]
//! on each registered entry and drops those that answer `false`.

use vstd::prelude::*;

use crate::widget::WidgetId;

verus! {

/// A handler for an input-method session, implemented by text-editing
/// widgets (or by the shell glue standing in for them).
///
/// The methods mirror the lifecycle of a platform input-method lock:
/// a live session can be acquired (read-only or read-write), must be
/// released afterwards, and reports through `is_alive` whether the widget
/// behind it still exists.
pub trait ImeHandlerRef {
    /// Whether this handler is still active.
    fn is_alive(&self) -> bool;

    /// Mark the session as locked. The lock is read-write when `mutable`
    /// is true. Returns whether the lock was granted; a live session
    /// grants it.
    fn acquire(&self, mutable: bool) -> bool;

    /// Mark the session as released. Returns whether a lock was held.
    fn release(&self) -> bool;
}

/// The observable side of one shared input-method session: whether the
/// session is still backed by a live widget. The shell glue that owns the
/// real session keeps this mirror current.
#[derive(Clone, Copy, PartialEq, Eq, Structural, Debug)]
pub struct ImeSession {
    pub alive: bool,
}

/// Records which widget is responsible for which input-method session.
#[derive(Clone, Copy, PartialEq, Eq, Structural, Debug)]
pub struct TextFieldRegistration {
    pub widget_id: WidgetId,
    pub session: ImeSession,
}

impl TextFieldRegistration {
    /// Whether the session behind this registration is still active.
    pub fn is_alive(&self) -> (r: bool)
        ensures
            r == self.session.alive,
    {
        self.session.alive
    }
}

} // verus!
