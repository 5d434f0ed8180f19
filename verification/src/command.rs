//! The messages widgets exchange during and between passes.
//!
//! A [`Command`] is a selector code, a payload and a target, queued globally
//! in submission order and drained between passes; the selector/payload/
//! target triple round-trips through the queue unchanged. A [`Notification`]
//! is the same message bubbled up through ancestors instead of queued
//! globally. An [`Action`] is an opaque message handed back to the
//! application together with the widget and window it came from.

use vstd::prelude::*;

use crate::widget::WidgetId;

verus! {

/// An opaque unique identifier for a window.
#[derive(Clone, Copy, PartialEq, Eq, Structural, Debug, Hash)]
pub struct WindowId(pub u64);

/// Selector code of the command announcing that a widget's input-method
/// state changed.
pub const INVALIDATE_IME: u64 = 1;

/// Selector code of the command asking the application to open a window.
pub const NEW_WINDOW: u64 = 2;

/// The smallest selector code available to applications; the codes below it
/// are reserved for the commands above.
pub const FIRST_APP_SELECTOR: u64 = 16;

/// A change of input-method state that the platform must be told about.
#[derive(Clone, Copy, PartialEq, Eq, Structural, Debug)]
pub enum ImeChange {
    /// The selection moved or changed.
    SelectionChanged,
    /// The laid-out text changed.
    LayoutChanged,
    /// The whole editing state must be re-read.
    Reset,
}

/// Payload of the input-method invalidation command: which widget's
/// editing state changed, and how.
#[derive(Clone, Copy, PartialEq, Eq, Structural, Debug)]
pub struct ImeInvalidation {
    pub widget: WidgetId,
    pub event: ImeChange,
}

/// A request for a new window, interpreted by the application shell.
#[derive(Clone, Copy, PartialEq, Eq, Structural, Debug)]
pub struct WindowDescription {
    /// An application-chosen code naming which window to open.
    pub kind: u64,
}

/// The payload carried by a command or notification.
#[derive(Clone, Copy, PartialEq, Eq, Structural, Debug)]
pub enum Payload {
    /// No payload.
    Empty,
    /// A boolean payload.
    Flag(bool),
    /// A numeric payload.
    Number(u64),
    /// An input-method invalidation.
    Ime(ImeInvalidation),
    /// A request to open a window.
    OpenWindow(WindowDescription),
}

/// Where a command is to be delivered.
#[derive(Clone, Copy, PartialEq, Eq, Structural, Debug)]
pub enum Target {
    /// No explicit target: the command goes to the window that owns the
    /// widget that submitted it.
    Auto,
    /// The application as a whole.
    Global,
    /// One window.
    Window(WindowId),
    /// One widget.
    Widget(WidgetId),
}

/// An arbitrary message addressed to a target.
#[derive(Clone, Copy, PartialEq, Eq, Structural, Debug)]
pub struct Command {
    pub selector: u64,
    pub payload: Payload,
    pub target: Target,
}

/// An arbitrary message bubbled up from `source` through its ancestors.
#[derive(Clone, Copy, PartialEq, Eq, Structural, Debug)]
pub struct Notification {
    pub selector: u64,
    pub payload: Payload,
    pub source: WidgetId,
}

/// An opaque message handed back to the application.
#[derive(Clone, Copy, PartialEq, Eq, Structural, Debug)]
pub struct Action(pub u64);

/// An action together with the widget and window it came from.
#[derive(Clone, Copy, PartialEq, Eq, Structural, Debug)]
pub struct ActionEntry {
    pub action: Action,
    pub widget_id: WidgetId,
    pub window_id: WindowId,
}

impl Command {
    /// A command with no explicit target.
    pub fn new(selector: u64, payload: Payload) -> (r: Command)
        ensures
            r == (Command { selector, payload, target: Target::Auto }),
    {
        Command { selector, payload, target: Target::Auto }
    }

    /// The same command addressed to `target`.
    pub fn to(self, target: Target) -> (r: Command)
        ensures
            r == (Command { target, ..self }),
    {
        Command { target, ..self }
    }

    /// The command after its target defaults to `target`: an explicit target
    /// is kept, only `Target::Auto` is replaced.
    pub open spec fn spec_default_to(self, target: Target) -> Command {
        if self.target is Auto {
            Command { target, ..self }
        } else {
            self
        }
    }

    /// Replace a `Target::Auto` target with `target`; an explicit target is
    /// kept unchanged.
    pub fn default_to(self, target: Target) -> (r: Command)
        ensures
            r == self.spec_default_to(target),
    {
        match self.target {
            Target::Auto => Command { target, ..self },
            _ => self,
        }
    }

    /// The same message as a notification from `source`; the target is
    /// dropped, since notifications travel up from their source.
    pub fn into_notification(self, source: WidgetId) -> (r: Notification)
        ensures
            r == (Notification { selector: self.selector, payload: self.payload, source }),
    {
        Notification { selector: self.selector, payload: self.payload, source }
    }

    /// Whether a command with this target is to be handled by window `id`.
    pub open spec fn spec_is_for_window(self, id: WindowId) -> bool {
        self.target == Target::Window(id)
    }

    /// Whether this command is addressed to window `id`.
    pub fn is_for_window(&self, id: WindowId) -> (r: bool)
        ensures
            r == self.spec_is_for_window(id),
    {
        match self.target {
            Target::Window(w) => w == id,
            _ => false,
        }
    }
}


/// Law: a command submitted with no explicit target is delivered to
/// exactly the window that owns the submitting widget — defaulting the
/// target rewrites `Auto` to that window and nothing else, and the
/// selector and payload round-trip unchanged.
pub proof fn lemma_auto_command_goes_to_own_window(cmd: Command, wid: WindowId)
    ensures
        cmd.target is Auto ==> cmd.spec_default_to(Target::Window(wid)).spec_is_for_window(wid),
        !(cmd.target is Auto) ==> cmd.spec_default_to(Target::Window(wid)) == cmd,
        cmd.spec_default_to(Target::Window(wid)).selector == cmd.selector,
        cmd.spec_default_to(Target::Window(wid)).payload == cmd.payload,
{
}

} // verus!
