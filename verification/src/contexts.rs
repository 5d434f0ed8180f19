//! The context types that are passed into the widget methods of each pass.
//!
//! One specialized context exists per tree-walking pass — [`EventCtx`],
//! [`LifeCycleCtx`], [`LayoutCtx`], [`PaintCtx`] — plus [`WidgetCtx`], the
//! context a mutation handle exposes. Each pass gets exactly the
//! capabilities that are safe during that pass, enforced by the distinct
//! types: paint, for instance, is read-only by design, so [`PaintCtx`] has
//! no mutating methods and repainting can never schedule more work.
//!
//! All contexts share one [`GlobalPassCtx`], the pass-scoped data: the
//! command, action and warning queues, the timer registry and the single
//! source of truth for which widget currently has focus.

use vstd::prelude::*;

use crate::command::{
    Action, ActionEntry, Command, Notification, ImeChange, ImeInvalidation, Payload, Target, WindowDescription,
    WindowId, INVALIDATE_IME, NEW_WINDOW,
};
use crate::geometry::{Insets, Point, Rect, Size, COORD_LIMIT, RECT_LIMIT};
use crate::text_input::{ImeSession, TextFieldRegistration};
use crate::widget::{Cursor, CursorChange, FocusChange, WidgetId, WidgetPod, WidgetState};

verus! {

/// What the platform lets a window report about itself: where its content
/// area sits on the screen. The shell glue keeps these values current.
#[derive(Clone, Copy, PartialEq, Eq, Structural, Debug)]
pub struct WindowHandle {
    /// The window's position on the screen.
    pub position: Point,
    /// The insets of the content area relative to the window's frame.
    pub content_insets: Insets,
}

impl WindowHandle {
    /// Coordinates stay within the bounds of the geometry arithmetic.
    pub open spec fn wf(self) -> bool {
        self.position.wf() && self.content_insets.wf()
    }

    pub fn new(position: Point, content_insets: Insets) -> (r: WindowHandle)
        ensures
            r == (WindowHandle { position, content_insets }),
    {
        WindowHandle { position, content_insets }
    }

    /// The window's position on the screen.
    pub fn get_position(&self) -> (r: Point)
        ensures
            r == self.position,
    {
        self.position
    }

    /// The insets of the content area relative to the window's frame.
    pub fn content_insets(&self) -> (r: Insets)
        ensures
            r == self.content_insets,
    {
        self.content_insets
    }
}

/// A token returned when a timer is requested, later matched against the
/// timer-fired event.
#[derive(Clone, Copy, PartialEq, Eq, Structural, Debug, Hash)]
pub struct TimerToken(pub u64);

/// A timer request routed back to the widget that made it: the platform
/// timer system is widget-agnostic, so delivery goes through this table.
#[derive(Clone, Copy, PartialEq, Eq, Structural, Debug)]
pub struct TimerBinding {
    pub token: TimerToken,
    pub widget_id: WidgetId,
    /// How far in the future the timer was asked to fire, in milliseconds.
    pub deadline_ms: u64,
}

/// A recoverable misuse of the API, logged instead of acted on: the
/// operation that caused it is a no-op.
#[derive(Clone, Copy, PartialEq, Eq, Structural, Debug)]
pub enum Warning {
    /// `focus_next` was called by a widget without tree focus.
    FocusNextWithoutFocus,
    /// `focus_prev` was called by a widget without tree focus.
    FocusPrevWithoutFocus,
    /// `resign_focus` was called by a widget without tree focus.
    ResignFocusWithoutFocus,
    /// A queued focus change was rejected when the pass ended because its
    /// requester no longer held tree focus.
    FocusChangeRejected,
}

/// Pass-scoped state shared between all contexts of one pass.
///
/// It is constructed once per top-level pass invocation and torn down at
/// the end of the pass; nothing survives a pass boundary except what was
/// explicitly queued or promoted into persistent state.
pub struct GlobalPassCtx {
    /// The id of the window being processed.
    pub window_id: WindowId,
    /// The platform window being processed.
    pub window: WindowHandle,
    /// The id of the widget that currently has focus.
    pub focus_widget: Option<WidgetId>,
    /// Commands queued during the pass, in submission order.
    pub command_queue: Vec<Command>,
    /// Actions queued during the pass, in submission order.
    pub action_queue: Vec<ActionEntry>,
    /// Timers requested so far, routed back by token.
    pub timers: Vec<TimerBinding>,
    /// The token the next timer request receives.
    pub next_timer_id: u64,
    /// Warnings logged during the pass, in order.
    pub warnings: Vec<Warning>,
}

impl GlobalPassCtx {
    /// Every issued token is below the next one, and no token was issued
    /// twice, so routing by token is unambiguous and fresh tokens stay
    /// fresh.
    pub open spec fn timers_wf(self) -> bool {
        &&& forall|i: int|
            0 <= i < self.timers@.len() ==> (#[trigger] self.timers@[i]).token.0
                < self.next_timer_id
        &&& forall|i: int, j: int|
            0 <= i < j < self.timers@.len() ==> (#[trigger] self.timers@[i]).token
                != (#[trigger] self.timers@[j]).token
    }

    /// A fresh pass context for `window_id`, with empty queues and no
    /// timers issued yet.
    pub fn new(window_id: WindowId, window: WindowHandle, focus_widget: Option<WidgetId>) -> (r:
        GlobalPassCtx)
        ensures
            r.window_id == window_id,
            r.window == window,
            r.focus_widget == focus_widget,
            r.command_queue@ == Seq::<Command>::empty(),
            r.action_queue@ == Seq::<ActionEntry>::empty(),
            r.timers@ == Seq::<TimerBinding>::empty(),
            r.next_timer_id == 0,
            r.warnings@ == Seq::<Warning>::empty(),
            r.timers_wf(),
    {
        GlobalPassCtx {
            window_id,
            window,
            focus_widget,
            command_queue: Vec::new(),
            action_queue: Vec::new(),
            timers: Vec::new(),
            next_timer_id: 0,
            warnings: Vec::new(),
        }
    }

    /// `new` differs from `old` only in that `cmd` was appended to the
    /// command queue, with an unspecified target defaulted to the pass's
    /// own window.
    pub open spec fn spec_queued_command(old_g: GlobalPassCtx, new_g: GlobalPassCtx, cmd: Command) -> bool {
        &&& new_g.command_queue@ == old_g.command_queue@.push(
            cmd.spec_default_to(Target::Window(old_g.window_id)),
        )
        &&& new_g == (GlobalPassCtx { command_queue: new_g.command_queue, ..old_g })
    }

    /// `new` differs from `old` only in that `action` from `widget_id` was
    /// appended to the action queue.
    pub open spec fn spec_queued_action(
        old_g: GlobalPassCtx,
        new_g: GlobalPassCtx,
        action: crate::command::Action,
        widget_id: WidgetId,
    ) -> bool {
        &&& new_g.action_queue@ == old_g.action_queue@.push(
            ActionEntry { action, widget_id, window_id: old_g.window_id },
        )
        &&& new_g == (GlobalPassCtx { action_queue: new_g.action_queue, ..old_g })
    }

    /// `new` differs from `old` only in that a timer with the fresh token
    /// `token` was bound to `widget_id`.
    pub open spec fn spec_added_timer(
        old_g: GlobalPassCtx,
        new_g: GlobalPassCtx,
        token: TimerToken,
        widget_id: WidgetId,
        deadline_ms: u64,
    ) -> bool {
        &&& token == (TimerToken { 0: old_g.next_timer_id })
        &&& forall|i: int|
            0 <= i < old_g.timers@.len() ==> (#[trigger] old_g.timers@[i]).token != token
        &&& new_g.timers@ == old_g.timers@.push(TimerBinding { token, widget_id, deadline_ms })
        &&& new_g.next_timer_id == old_g.next_timer_id + 1
        &&& new_g == (GlobalPassCtx {
            timers: new_g.timers,
            next_timer_id: new_g.next_timer_id,
            ..old_g
        })
    }

    /// `new` differs from `old` only in that `w` was appended to the
    /// warning log.
    pub open spec fn spec_logged_warning(
        old_g: GlobalPassCtx,
        new_g: GlobalPassCtx,
        w: Warning,
    ) -> bool {
        &&& new_g.warnings@ == old_g.warnings@.push(w)
        &&& new_g == (GlobalPassCtx { warnings: new_g.warnings, ..old_g })
    }

    /// Queue `command` to be run after the current pass, in submission
    /// order. A command without an explicit target goes to the window
    /// being processed.
    pub fn submit_command(&mut self, command: Command)
        ensures
            GlobalPassCtx::spec_queued_command(*old(self), *final(self), command),
    {
        let target = Target::Window(self.window_id);
        let command = command.default_to(target);
        self.command_queue.push(command);
    }

    /// Queue `action` as coming from `widget_id` in the window being
    /// processed.
    pub fn submit_action(&mut self, action: crate::command::Action, widget_id: WidgetId)
        ensures
            GlobalPassCtx::spec_queued_action(*old(self), *final(self), action, widget_id),
    {
        let entry = ActionEntry { action, widget_id, window_id: self.window_id };
        self.action_queue.push(entry);
    }

    /// Bind a fresh timer token to `widget_id` so a later timer-fired event
    /// can be routed to it, and return the token. The platform (or a mock
    /// clock) schedules the actual deadline.
    pub fn request_timer(&mut self, deadline_ms: u64, widget_id: WidgetId) -> (token: TimerToken)
        requires
            old(self).timers_wf(),
            old(self).next_timer_id < u64::MAX,
        ensures
            GlobalPassCtx::spec_added_timer(
                *old(self),
                *final(self),
                token,
                widget_id,
                deadline_ms,
            ),
            final(self).timers_wf(),
    {
        let token = TimerToken(self.next_timer_id);
        self.next_timer_id = self.next_timer_id + 1;
        let binding = TimerBinding { token, widget_id, deadline_ms };
        self.timers.push(binding);
        token
    }

    /// The widget a fired timer should be delivered to, or `None` when the
    /// widget's registration is gone and the event must be dropped.
    pub fn widget_for_timer(&self, token: TimerToken) -> (r: Option<WidgetId>)
        requires
            self.timers_wf(),
        ensures
            r is Some <==> exists|i: int|
                0 <= i < self.timers@.len() && (#[trigger] self.timers@[i]).token == token,
            forall|i: int|
                0 <= i < self.timers@.len() && (#[trigger] self.timers@[i]).token == token
                    ==> r == Some(self.timers@[i].widget_id),
    {
        let n = self.timers.len();
        let mut i: usize = 0;
        while i < n
            invariant
                self.timers_wf(),
                n == self.timers@.len(),
                0 <= i <= n,
                forall|k: int| 0 <= k < i ==> (#[trigger] self.timers@[k]).token != token,
            decreases n - i,
        {
            if self.timers[i].token.0 == token.0 {
                let r = Some(self.timers[i].widget_id);
                proof {
                    assert forall|k: int|
                        0 <= k < self.timers@.len() && (#[trigger] self.timers@[k]).token
                            == token implies r == Some(self.timers@[k].widget_id) by {
                        if k != i {
                            assert(self.timers@[k].token != self.timers@[i as int].token);
                        }
                    }
                }
                return r;
            }
            i = i + 1;
        }
        None
    }
}

/// The context handed to implementors of mutation handles: what a widget's
/// own mutating methods may use while the widget is being edited from
/// outside a pass.
pub struct WidgetCtx {
    pub global: GlobalPassCtx,
    pub widget_state: WidgetState,
}

/// The context handed to event handling methods of widgets.
pub struct EventCtx {
    pub global: GlobalPassCtx,
    pub widget_state: WidgetState,
    /// Notifications submitted by this widget, to bubble up through its
    /// ancestors.
    pub notifications: Vec<crate::command::Notification>,
    /// Whether some widget has already handled this event.
    pub is_handled: bool,
    /// Whether this context belongs to the root widget.
    pub is_root: bool,
    /// A rectangle a descendant asked to be panned into view.
    pub request_pan_to_child: Option<Rect>,
}

/// The context handed to lifecycle methods of widgets.
pub struct LifeCycleCtx {
    pub global: GlobalPassCtx,
    pub widget_state: WidgetState,
}

/// The context handed to layout methods of widgets.
pub struct LayoutCtx {
    pub global: GlobalPassCtx,
    pub widget_state: WidgetState,
    /// The last known pointer position, in the widget's own coordinates.
    pub mouse_pos: Option<Point>,
}

/// The context handed to paint methods of widgets.
///
/// Paint is read-only with respect to tree state — repainting must never
/// schedule more work — so this context offers no mutating methods.
pub struct PaintCtx {
    pub global: GlobalPassCtx,
    pub widget_state: WidgetState,
    /// The approximate depth in the tree at the time of painting.
    pub depth: u32,
}

impl PaintCtx {
    /// The depth in the tree of the currently painting widget. It may not
    /// be exact; it is only guaranteed that a child's depth is greater
    /// than its parent's.
    pub fn depth(&self) -> (r: u32)
        ensures
            r == self.depth,
    {
        self.depth
    }
}


/// The origin of a window's content area on the screen: the window's
/// position shifted by its content insets.
pub open spec fn spec_content_origin(w: WindowHandle) -> Point {
    Point {
        x: (w.position.x + w.content_insets.x0) as i64,
        y: (w.position.y + w.content_insets.y0) as i64,
    }
}

impl WidgetCtx {
    /// The id of the current widget.
    pub fn widget_id(&self) -> (r: WidgetId)
        ensures
            r == self.widget_state.id,
    {
        self.widget_state.id
    }

    /// The platform window being processed.
    pub fn window(&self) -> (r: WindowHandle)
        ensures
            r == self.global.window,
    {
        self.global.window
    }

    /// The id of the current window.
    pub fn window_id(&self) -> (r: WindowId)
        ensures
            r == self.global.window_id,
    {
        self.global.window_id
    }

    /// Record that the given child was deliberately skipped this pass.
    ///
    /// Container widgets are supposed to visit each child in every pass;
    /// this acknowledges that a child was left out on purpose.
    pub fn skip_child(&self, child: &mut WidgetPod)
        ensures
            *final(child) == (WidgetPod {
                state: WidgetState { is_visited: true, ..old(child).state },
            }),
    {
        child.mark_as_visited();
    }
}

impl EventCtx {
    /// The id of the current widget.
    pub fn widget_id(&self) -> (r: WidgetId)
        ensures
            r == self.widget_state.id,
    {
        self.widget_state.id
    }

    /// The platform window being processed.
    pub fn window(&self) -> (r: WindowHandle)
        ensures
            r == self.global.window,
    {
        self.global.window
    }

    /// The id of the current window.
    pub fn window_id(&self) -> (r: WindowId)
        ensures
            r == self.global.window_id,
    {
        self.global.window_id
    }

    /// Record that the given child was deliberately skipped this pass.
    ///
    /// Container widgets are supposed to visit each child in every pass;
    /// this acknowledges that a child was left out on purpose.
    pub fn skip_child(&self, child: &mut WidgetPod)
        ensures
            *final(child) == (WidgetPod {
                state: WidgetState { is_visited: true, ..old(child).state },
            }),
    {
        child.mark_as_visited();
    }
}

impl LifeCycleCtx {
    /// The id of the current widget.
    pub fn widget_id(&self) -> (r: WidgetId)
        ensures
            r == self.widget_state.id,
    {
        self.widget_state.id
    }

    /// The platform window being processed.
    pub fn window(&self) -> (r: WindowHandle)
        ensures
            r == self.global.window,
    {
        self.global.window
    }

    /// The id of the current window.
    pub fn window_id(&self) -> (r: WindowId)
        ensures
            r == self.global.window_id,
    {
        self.global.window_id
    }

    /// Record that the given child was deliberately skipped this pass.
    ///
    /// Container widgets are supposed to visit each child in every pass;
    /// this acknowledges that a child was left out on purpose.
    pub fn skip_child(&self, child: &mut WidgetPod)
        ensures
            *final(child) == (WidgetPod {
                state: WidgetState { is_visited: true, ..old(child).state },
            }),
    {
        child.mark_as_visited();
    }
}

impl LayoutCtx {
    /// The id of the current widget.
    pub fn widget_id(&self) -> (r: WidgetId)
        ensures
            r == self.widget_state.id,
    {
        self.widget_state.id
    }

    /// The platform window being processed.
    pub fn window(&self) -> (r: WindowHandle)
        ensures
            r == self.global.window,
    {
        self.global.window
    }

    /// The id of the current window.
    pub fn window_id(&self) -> (r: WindowId)
        ensures
            r == self.global.window_id,
    {
        self.global.window_id
    }

    /// Record that the given child was deliberately skipped this pass.
    ///
    /// Container widgets are supposed to visit each child in every pass;
    /// this acknowledges that a child was left out on purpose.
    pub fn skip_child(&self, child: &mut WidgetPod)
        ensures
            *final(child) == (WidgetPod {
                state: WidgetState { is_visited: true, ..old(child).state },
            }),
    {
        child.mark_as_visited();
    }
}

impl PaintCtx {
    /// The id of the current widget.
    pub fn widget_id(&self) -> (r: WidgetId)
        ensures
            r == self.widget_state.id,
    {
        self.widget_state.id
    }

    /// The platform window being processed.
    pub fn window(&self) -> (r: WindowHandle)
        ensures
            r == self.global.window,
    {
        self.global.window
    }

    /// The id of the current window.
    pub fn window_id(&self) -> (r: WindowId)
        ensures
            r == self.global.window_id,
    {
        self.global.window_id
    }

    /// Record that the given child was deliberately skipped this pass.
    ///
    /// Container widgets are supposed to visit each child in every pass;
    /// this acknowledges that a child was left out on purpose.
    pub fn skip_child(&self, child: &mut WidgetPod)
        ensures
            *final(child) == (WidgetPod {
                state: WidgetState { is_visited: true, ..old(child).state },
            }),
    {
        child.mark_as_visited();
    }
}

impl EventCtx {
    /// The layout size, as determined by the parent container on the
    /// previous layout pass.
    pub fn size(&self) -> (r: Size)
        ensures
            r == self.widget_state.size,
    {
        self.widget_state.size()
    }

    /// The origin of the widget in window coordinates, relative to the top
    /// left corner of the content area.
    pub fn window_origin(&self) -> (r: Point)
        requires
            self.widget_state.geom_wf(),
        ensures
            r == self.widget_state.spec_window_origin(),
    {
        self.widget_state.window_origin()
    }

    /// Convert a point from the widget's coordinate space to the window's.
    pub fn to_window(&self, widget_point: Point) -> (r: Point)
        requires
            self.widget_state.geom_wf(),
            widget_point.wf(),
        ensures
            r == self.widget_state.spec_window_origin().spec_translate(widget_point),
    {
        self.window_origin().translate(widget_point)
    }

    /// Convert a point from the widget's coordinate space to the screen's,
    /// going through the window's position and content insets.
    pub fn to_screen(&self, widget_point: Point) -> (r: Point)
        requires
            self.widget_state.geom_wf(),
            self.global.window.wf(),
            widget_point.wf(),
        ensures
            r == spec_content_origin(self.global.window).spec_translate(
                self.widget_state.spec_window_origin().spec_translate(widget_point),
            ),
    {
        let insets = self.window().content_insets();
        let window_pos = self.window().get_position();
        let content_origin = window_pos.translate(Point { x: insets.x0, y: insets.y0 });
        content_origin.translate(self.to_window(widget_point))
    }

    /// The "hot" (hover) status of the widget: whether the pointer is over
    /// its layout rect.
    pub fn is_hot(&self) -> (r: bool)
        ensures
            r == self.widget_state.is_hot,
    {
        self.widget_state.is_hot
    }

    /// The active status of the widget: whether it holds an implicit
    /// pointer grab.
    pub fn is_active(&self) -> (r: bool)
        ensures
            r == self.widget_state.is_active,
    {
        self.widget_state.is_active
    }

    /// Whether this specific widget is the focused widget. Only one widget
    /// at a time is focused; ancestors of it answer `false` here but `true`
    /// to `has_focus`.
    pub fn is_focused(&self) -> (r: bool)
        ensures
            r == (self.global.focus_widget == Some(self.widget_state.id)),
    {
        match self.global.focus_widget {
            Some(id) => id.0 == self.widget_state.id.0,
            None => false,
        }
    }

    /// Whether this widget or one of its descendants is focused, as
    /// tracked bottom-up in the widget state.
    pub fn has_focus(&self) -> (r: bool)
        ensures
            r == self.widget_state.has_focus,
    {
        self.widget_state.has_focus
    }

    /// Whether this widget is disabled, explicitly or through an ancestor.
    pub fn is_disabled(&self) -> (r: bool)
        ensures
            r == self.widget_state.spec_is_disabled(),
    {
        self.widget_state.is_disabled()
    }

    /// Whether this widget is stashed: kept in the tree but excluded from
    /// layout and paint.
    pub fn is_stashed(&self) -> (r: bool)
        ensures
            r == self.widget_state.is_stashed,
    {
        self.widget_state.is_stashed
    }
}

impl LifeCycleCtx {
    /// The layout size, as determined by the parent container on the
    /// previous layout pass.
    pub fn size(&self) -> (r: Size)
        ensures
            r == self.widget_state.size,
    {
        self.widget_state.size()
    }

    /// The origin of the widget in window coordinates, relative to the top
    /// left corner of the content area.
    pub fn window_origin(&self) -> (r: Point)
        requires
            self.widget_state.geom_wf(),
        ensures
            r == self.widget_state.spec_window_origin(),
    {
        self.widget_state.window_origin()
    }

    /// Convert a point from the widget's coordinate space to the window's.
    pub fn to_window(&self, widget_point: Point) -> (r: Point)
        requires
            self.widget_state.geom_wf(),
            widget_point.wf(),
        ensures
            r == self.widget_state.spec_window_origin().spec_translate(widget_point),
    {
        self.window_origin().translate(widget_point)
    }

    /// Convert a point from the widget's coordinate space to the screen's,
    /// going through the window's position and content insets.
    pub fn to_screen(&self, widget_point: Point) -> (r: Point)
        requires
            self.widget_state.geom_wf(),
            self.global.window.wf(),
            widget_point.wf(),
        ensures
            r == spec_content_origin(self.global.window).spec_translate(
                self.widget_state.spec_window_origin().spec_translate(widget_point),
            ),
    {
        let insets = self.window().content_insets();
        let window_pos = self.window().get_position();
        let content_origin = window_pos.translate(Point { x: insets.x0, y: insets.y0 });
        content_origin.translate(self.to_window(widget_point))
    }

    /// The "hot" (hover) status of the widget: whether the pointer is over
    /// its layout rect.
    pub fn is_hot(&self) -> (r: bool)
        ensures
            r == self.widget_state.is_hot,
    {
        self.widget_state.is_hot
    }

    /// The active status of the widget: whether it holds an implicit
    /// pointer grab.
    pub fn is_active(&self) -> (r: bool)
        ensures
            r == self.widget_state.is_active,
    {
        self.widget_state.is_active
    }

    /// Whether this specific widget is the focused widget. Only one widget
    /// at a time is focused; ancestors of it answer `false` here but `true`
    /// to `has_focus`.
    pub fn is_focused(&self) -> (r: bool)
        ensures
            r == (self.global.focus_widget == Some(self.widget_state.id)),
    {
        match self.global.focus_widget {
            Some(id) => id.0 == self.widget_state.id.0,
            None => false,
        }
    }

    /// Whether this widget or one of its descendants is focused, as
    /// tracked bottom-up in the widget state.
    pub fn has_focus(&self) -> (r: bool)
        ensures
            r == self.widget_state.has_focus,
    {
        self.widget_state.has_focus
    }

    /// Whether this widget is disabled, explicitly or through an ancestor.
    pub fn is_disabled(&self) -> (r: bool)
        ensures
            r == self.widget_state.spec_is_disabled(),
    {
        self.widget_state.is_disabled()
    }

    /// Whether this widget is stashed: kept in the tree but excluded from
    /// layout and paint.
    pub fn is_stashed(&self) -> (r: bool)
        ensures
            r == self.widget_state.is_stashed,
    {
        self.widget_state.is_stashed
    }
}

impl LayoutCtx {
    /// The layout size, as determined by the parent container on the
    /// previous layout pass.
    pub fn size(&self) -> (r: Size)
        ensures
            r == self.widget_state.size,
    {
        self.widget_state.size()
    }

    /// The origin of the widget in window coordinates, relative to the top
    /// left corner of the content area.
    pub fn window_origin(&self) -> (r: Point)
        requires
            self.widget_state.geom_wf(),
        ensures
            r == self.widget_state.spec_window_origin(),
    {
        self.widget_state.window_origin()
    }

    /// Convert a point from the widget's coordinate space to the window's.
    pub fn to_window(&self, widget_point: Point) -> (r: Point)
        requires
            self.widget_state.geom_wf(),
            widget_point.wf(),
        ensures
            r == self.widget_state.spec_window_origin().spec_translate(widget_point),
    {
        self.window_origin().translate(widget_point)
    }

    /// Convert a point from the widget's coordinate space to the screen's,
    /// going through the window's position and content insets.
    pub fn to_screen(&self, widget_point: Point) -> (r: Point)
        requires
            self.widget_state.geom_wf(),
            self.global.window.wf(),
            widget_point.wf(),
        ensures
            r == spec_content_origin(self.global.window).spec_translate(
                self.widget_state.spec_window_origin().spec_translate(widget_point),
            ),
    {
        let insets = self.window().content_insets();
        let window_pos = self.window().get_position();
        let content_origin = window_pos.translate(Point { x: insets.x0, y: insets.y0 });
        content_origin.translate(self.to_window(widget_point))
    }

    /// The "hot" (hover) status of the widget: whether the pointer is over
    /// its layout rect.
    pub fn is_hot(&self) -> (r: bool)
        ensures
            r == self.widget_state.is_hot,
    {
        self.widget_state.is_hot
    }

    /// The active status of the widget: whether it holds an implicit
    /// pointer grab.
    pub fn is_active(&self) -> (r: bool)
        ensures
            r == self.widget_state.is_active,
    {
        self.widget_state.is_active
    }

    /// Whether this specific widget is the focused widget. Only one widget
    /// at a time is focused; ancestors of it answer `false` here but `true`
    /// to `has_focus`.
    pub fn is_focused(&self) -> (r: bool)
        ensures
            r == (self.global.focus_widget == Some(self.widget_state.id)),
    {
        match self.global.focus_widget {
            Some(id) => id.0 == self.widget_state.id.0,
            None => false,
        }
    }

    /// Whether this widget or one of its descendants is focused, as
    /// tracked bottom-up in the widget state.
    pub fn has_focus(&self) -> (r: bool)
        ensures
            r == self.widget_state.has_focus,
    {
        self.widget_state.has_focus
    }

    /// Whether this widget is disabled, explicitly or through an ancestor.
    pub fn is_disabled(&self) -> (r: bool)
        ensures
            r == self.widget_state.spec_is_disabled(),
    {
        self.widget_state.is_disabled()
    }

    /// Whether this widget is stashed: kept in the tree but excluded from
    /// layout and paint.
    pub fn is_stashed(&self) -> (r: bool)
        ensures
            r == self.widget_state.is_stashed,
    {
        self.widget_state.is_stashed
    }
}

impl PaintCtx {
    /// The layout size, as determined by the parent container on the
    /// previous layout pass.
    pub fn size(&self) -> (r: Size)
        ensures
            r == self.widget_state.size,
    {
        self.widget_state.size()
    }

    /// The origin of the widget in window coordinates, relative to the top
    /// left corner of the content area.
    pub fn window_origin(&self) -> (r: Point)
        requires
            self.widget_state.geom_wf(),
        ensures
            r == self.widget_state.spec_window_origin(),
    {
        self.widget_state.window_origin()
    }

    /// Convert a point from the widget's coordinate space to the window's.
    pub fn to_window(&self, widget_point: Point) -> (r: Point)
        requires
            self.widget_state.geom_wf(),
            widget_point.wf(),
        ensures
            r == self.widget_state.spec_window_origin().spec_translate(widget_point),
    {
        self.window_origin().translate(widget_point)
    }

    /// Convert a point from the widget's coordinate space to the screen's,
    /// going through the window's position and content insets.
    pub fn to_screen(&self, widget_point: Point) -> (r: Point)
        requires
            self.widget_state.geom_wf(),
            self.global.window.wf(),
            widget_point.wf(),
        ensures
            r == spec_content_origin(self.global.window).spec_translate(
                self.widget_state.spec_window_origin().spec_translate(widget_point),
            ),
    {
        let insets = self.window().content_insets();
        let window_pos = self.window().get_position();
        let content_origin = window_pos.translate(Point { x: insets.x0, y: insets.y0 });
        content_origin.translate(self.to_window(widget_point))
    }

    /// The "hot" (hover) status of the widget: whether the pointer is over
    /// its layout rect.
    pub fn is_hot(&self) -> (r: bool)
        ensures
            r == self.widget_state.is_hot,
    {
        self.widget_state.is_hot
    }

    /// The active status of the widget: whether it holds an implicit
    /// pointer grab.
    pub fn is_active(&self) -> (r: bool)
        ensures
            r == self.widget_state.is_active,
    {
        self.widget_state.is_active
    }

    /// Whether this specific widget is the focused widget. Only one widget
    /// at a time is focused; ancestors of it answer `false` here but `true`
    /// to `has_focus`.
    pub fn is_focused(&self) -> (r: bool)
        ensures
            r == (self.global.focus_widget == Some(self.widget_state.id)),
    {
        match self.global.focus_widget {
            Some(id) => id.0 == self.widget_state.id.0,
            None => false,
        }
    }

    /// Whether this widget or one of its descendants is focused, as
    /// tracked bottom-up in the widget state.
    pub fn has_focus(&self) -> (r: bool)
        ensures
            r == self.widget_state.has_focus,
    {
        self.widget_state.has_focus
    }

    /// Whether this widget is disabled, explicitly or through an ancestor.
    pub fn is_disabled(&self) -> (r: bool)
        ensures
            r == self.widget_state.spec_is_disabled(),
    {
        self.widget_state.is_disabled()
    }

    /// Whether this widget is stashed: kept in the tree but excluded from
    /// layout and paint.
    pub fn is_stashed(&self) -> (r: bool)
        ensures
            r == self.widget_state.is_stashed,
    {
        self.widget_state.is_stashed
    }
}

impl WidgetCtx {
    /// Request a paint pass.
    pub fn request_paint(&mut self)
        ensures
            *final(self) == (WidgetCtx {
                widget_state: old(self).widget_state.with_needs_paint(),
                ..*old(self)
            }),
    {
        self.widget_state.needs_paint = true;
    }

    /// Request a layout pass, to be honored before the next paint.
    pub fn request_layout(&mut self)
        ensures
            *final(self) == (WidgetCtx {
                widget_state: old(self).widget_state.with_needs_layout(),
                ..*old(self)
            }),
    {
        self.widget_state.needs_layout = true;
    }

    /// Request an animation frame.
    pub fn request_anim_frame(&mut self)
        ensures
            *final(self) == (WidgetCtx {
                widget_state: old(self).widget_state.with_anim_frame(),
                ..*old(self)
            }),
    {
        self.widget_state.request_anim = true;
    }

    /// Announce that this widget's children have changed.
    ///
    /// Every container that adds or removes a child must call this: it
    /// schedules a layout pass and a rebuild of the focus chain, without
    /// which the tree becomes inconsistent.
    pub fn children_changed(&mut self)
        ensures
            *final(self) == (WidgetCtx {
                widget_state: old(self).widget_state.with_children_changed(),
                ..*old(self)
            }),
    {
        self.widget_state.children_changed = true;
        self.widget_state.update_focus_chain = true;
        self.widget_state.needs_layout = true;
    }

    /// Set the explicit disabled flag of this widget. The change takes
    /// effect when the pass ends, never mid-event, and clearing the flag
    /// does not enable a widget whose ancestor is still disabled.
    pub fn set_disabled(&mut self, disabled: bool)
        ensures
            *final(self) == (WidgetCtx {
                widget_state: (WidgetState {
                    is_explicitly_disabled_new: disabled,
                    ..old(self).widget_state
                }),
                ..*old(self)
            }),
    {
        self.widget_state.is_explicitly_disabled_new = disabled;
    }

    /// Mark a child widget as stashed: kept in the tree but excluded from
    /// layout and paint. Implies `children_changed`.
    pub fn set_stashed(&mut self, child: &mut WidgetPod, stashed: bool)
        ensures
            *final(child) == (WidgetPod {
                state: WidgetState { is_stashed: stashed, ..old(child).state },
            }),
            *final(self) == (WidgetCtx {
                widget_state: old(self).widget_state.with_children_changed(),
                ..*old(self)
            }),
    {
        child.state.is_stashed = stashed;
        self.children_changed();
    }

    /// Announce that this widget's input-method state changed for a reason
    /// other than text input itself, by queueing the invalidation command
    /// to the owning window.
    pub fn invalidate_text_input(&mut self, event: ImeChange)
        ensures
            GlobalPassCtx::spec_queued_command(
                old(self).global,
                final(self).global,
                (Command {
                    selector: INVALIDATE_IME,
                    payload: Payload::Ime(ImeInvalidation {
                        widget: old(self).widget_state.id,
                        event,
                    }),
                    target: Target::Window(old(self).global.window_id),
                }),
            ),
            *final(self) == (WidgetCtx { global: final(self).global, ..*old(self) }),
    {
        let payload = Payload::Ime(ImeInvalidation { widget: self.widget_state.id, event });
        let target = Target::Window(self.global.window_id);
        let cmd = Command::new(INVALIDATE_IME, payload).to(target);
        self.global.submit_command(cmd);
    }
}

impl WidgetCtx {
    /// Queue `cmd` to be run after this pass. Commands run in submission
    /// order, and one without an explicit target goes to the window that
    /// owns this widget.
    pub fn submit_command(&mut self, cmd: Command)
        ensures
            GlobalPassCtx::spec_queued_command(old(self).global, final(self).global, cmd),
            *final(self) == (WidgetCtx { global: final(self).global, ..*old(self) }),
    {
        self.global.submit_command(cmd);
    }

    /// Queue `action` as coming from this widget.
    pub fn submit_action(&mut self, action: Action)
        ensures
            GlobalPassCtx::spec_queued_action(
                old(self).global,
                final(self).global,
                action,
                old(self).widget_state.id,
            ),
            *final(self) == (WidgetCtx { global: final(self).global, ..*old(self) }),
    {
        let id = self.widget_state.id;
        self.global.submit_action(action, id);
    }

    /// Request a timer event roughly `deadline_ms` milliseconds from now.
    /// The returned token is fresh and will route the fired timer back to
    /// this widget.
    pub fn request_timer(&mut self, deadline_ms: u64) -> (token: TimerToken)
        requires
            old(self).global.timers_wf(),
            old(self).global.next_timer_id < u64::MAX,
        ensures
            GlobalPassCtx::spec_added_timer(
                old(self).global,
                final(self).global,
                token,
                old(self).widget_state.id,
                deadline_ms,
            ),
            final(self).global.timers_wf(),
            *final(self) == (WidgetCtx { global: final(self).global, ..*old(self) }),
    {
        let id = self.widget_state.id;
        self.global.request_timer(deadline_ms, id)
    }
}

impl EventCtx {
    /// Request a paint pass.
    pub fn request_paint(&mut self)
        ensures
            *final(self) == (EventCtx {
                widget_state: old(self).widget_state.with_needs_paint(),
                ..*old(self)
            }),
    {
        self.widget_state.needs_paint = true;
    }

    /// Request a layout pass, to be honored before the next paint.
    pub fn request_layout(&mut self)
        ensures
            *final(self) == (EventCtx {
                widget_state: old(self).widget_state.with_needs_layout(),
                ..*old(self)
            }),
    {
        self.widget_state.needs_layout = true;
    }

    /// Request an animation frame.
    pub fn request_anim_frame(&mut self)
        ensures
            *final(self) == (EventCtx {
                widget_state: old(self).widget_state.with_anim_frame(),
                ..*old(self)
            }),
    {
        self.widget_state.request_anim = true;
    }

    /// Announce that this widget's children have changed.
    ///
    /// Every container that adds or removes a child must call this: it
    /// schedules a layout pass and a rebuild of the focus chain, without
    /// which the tree becomes inconsistent.
    pub fn children_changed(&mut self)
        ensures
            *final(self) == (EventCtx {
                widget_state: old(self).widget_state.with_children_changed(),
                ..*old(self)
            }),
    {
        self.widget_state.children_changed = true;
        self.widget_state.update_focus_chain = true;
        self.widget_state.needs_layout = true;
    }

    /// Set the explicit disabled flag of this widget. The change takes
    /// effect when the pass ends, never mid-event, and clearing the flag
    /// does not enable a widget whose ancestor is still disabled.
    pub fn set_disabled(&mut self, disabled: bool)
        ensures
            *final(self) == (EventCtx {
                widget_state: (WidgetState {
                    is_explicitly_disabled_new: disabled,
                    ..old(self).widget_state
                }),
                ..*old(self)
            }),
    {
        self.widget_state.is_explicitly_disabled_new = disabled;
    }

    /// Mark a child widget as stashed: kept in the tree but excluded from
    /// layout and paint. Implies `children_changed`.
    pub fn set_stashed(&mut self, child: &mut WidgetPod, stashed: bool)
        ensures
            *final(child) == (WidgetPod {
                state: WidgetState { is_stashed: stashed, ..old(child).state },
            }),
            *final(self) == (EventCtx {
                widget_state: old(self).widget_state.with_children_changed(),
                ..*old(self)
            }),
    {
        child.state.is_stashed = stashed;
        self.children_changed();
    }

    /// Announce that this widget's input-method state changed for a reason
    /// other than text input itself, by queueing the invalidation command
    /// to the owning window.
    pub fn invalidate_text_input(&mut self, event: ImeChange)
        ensures
            GlobalPassCtx::spec_queued_command(
                old(self).global,
                final(self).global,
                (Command {
                    selector: INVALIDATE_IME,
                    payload: Payload::Ime(ImeInvalidation {
                        widget: old(self).widget_state.id,
                        event,
                    }),
                    target: Target::Window(old(self).global.window_id),
                }),
            ),
            *final(self) == (EventCtx { global: final(self).global, ..*old(self) }),
    {
        let payload = Payload::Ime(ImeInvalidation { widget: self.widget_state.id, event });
        let target = Target::Window(self.global.window_id);
        let cmd = Command::new(INVALIDATE_IME, payload).to(target);
        self.global.submit_command(cmd);
    }
}

impl EventCtx {
    /// Queue `cmd` to be run after this pass. Commands run in submission
    /// order, and one without an explicit target goes to the window that
    /// owns this widget.
    pub fn submit_command(&mut self, cmd: Command)
        ensures
            GlobalPassCtx::spec_queued_command(old(self).global, final(self).global, cmd),
            *final(self) == (EventCtx { global: final(self).global, ..*old(self) }),
    {
        self.global.submit_command(cmd);
    }

    /// Queue `action` as coming from this widget.
    pub fn submit_action(&mut self, action: Action)
        ensures
            GlobalPassCtx::spec_queued_action(
                old(self).global,
                final(self).global,
                action,
                old(self).widget_state.id,
            ),
            *final(self) == (EventCtx { global: final(self).global, ..*old(self) }),
    {
        let id = self.widget_state.id;
        self.global.submit_action(action, id);
    }

    /// Request a timer event roughly `deadline_ms` milliseconds from now.
    /// The returned token is fresh and will route the fired timer back to
    /// this widget.
    pub fn request_timer(&mut self, deadline_ms: u64) -> (token: TimerToken)
        requires
            old(self).global.timers_wf(),
            old(self).global.next_timer_id < u64::MAX,
        ensures
            GlobalPassCtx::spec_added_timer(
                old(self).global,
                final(self).global,
                token,
                old(self).widget_state.id,
                deadline_ms,
            ),
            final(self).global.timers_wf(),
            *final(self) == (EventCtx { global: final(self).global, ..*old(self) }),
    {
        let id = self.widget_state.id;
        self.global.request_timer(deadline_ms, id)
    }
}

impl LifeCycleCtx {
    /// Request a paint pass.
    pub fn request_paint(&mut self)
        ensures
            *final(self) == (LifeCycleCtx {
                widget_state: old(self).widget_state.with_needs_paint(),
                ..*old(self)
            }),
    {
        self.widget_state.needs_paint = true;
    }

    /// Request a layout pass, to be honored before the next paint.
    pub fn request_layout(&mut self)
        ensures
            *final(self) == (LifeCycleCtx {
                widget_state: old(self).widget_state.with_needs_layout(),
                ..*old(self)
            }),
    {
        self.widget_state.needs_layout = true;
    }

    /// Request an animation frame.
    pub fn request_anim_frame(&mut self)
        ensures
            *final(self) == (LifeCycleCtx {
                widget_state: old(self).widget_state.with_anim_frame(),
                ..*old(self)
            }),
    {
        self.widget_state.request_anim = true;
    }

    /// Announce that this widget's children have changed.
    ///
    /// Every container that adds or removes a child must call this: it
    /// schedules a layout pass and a rebuild of the focus chain, without
    /// which the tree becomes inconsistent.
    pub fn children_changed(&mut self)
        ensures
            *final(self) == (LifeCycleCtx {
                widget_state: old(self).widget_state.with_children_changed(),
                ..*old(self)
            }),
    {
        self.widget_state.children_changed = true;
        self.widget_state.update_focus_chain = true;
        self.widget_state.needs_layout = true;
    }

    /// Set the explicit disabled flag of this widget. The change takes
    /// effect when the pass ends, never mid-event, and clearing the flag
    /// does not enable a widget whose ancestor is still disabled.
    pub fn set_disabled(&mut self, disabled: bool)
        ensures
            *final(self) == (LifeCycleCtx {
                widget_state: (WidgetState {
                    is_explicitly_disabled_new: disabled,
                    ..old(self).widget_state
                }),
                ..*old(self)
            }),
    {
        self.widget_state.is_explicitly_disabled_new = disabled;
    }

    /// Mark a child widget as stashed: kept in the tree but excluded from
    /// layout and paint. Implies `children_changed`.
    pub fn set_stashed(&mut self, child: &mut WidgetPod, stashed: bool)
        ensures
            *final(child) == (WidgetPod {
                state: WidgetState { is_stashed: stashed, ..old(child).state },
            }),
            *final(self) == (LifeCycleCtx {
                widget_state: old(self).widget_state.with_children_changed(),
                ..*old(self)
            }),
    {
        child.state.is_stashed = stashed;
        self.children_changed();
    }

    /// Announce that this widget's input-method state changed for a reason
    /// other than text input itself, by queueing the invalidation command
    /// to the owning window.
    pub fn invalidate_text_input(&mut self, event: ImeChange)
        ensures
            GlobalPassCtx::spec_queued_command(
                old(self).global,
                final(self).global,
                (Command {
                    selector: INVALIDATE_IME,
                    payload: Payload::Ime(ImeInvalidation {
                        widget: old(self).widget_state.id,
                        event,
                    }),
                    target: Target::Window(old(self).global.window_id),
                }),
            ),
            *final(self) == (LifeCycleCtx { global: final(self).global, ..*old(self) }),
    {
        let payload = Payload::Ime(ImeInvalidation { widget: self.widget_state.id, event });
        let target = Target::Window(self.global.window_id);
        let cmd = Command::new(INVALIDATE_IME, payload).to(target);
        self.global.submit_command(cmd);
    }
}

impl LifeCycleCtx {
    /// Queue `cmd` to be run after this pass. Commands run in submission
    /// order, and one without an explicit target goes to the window that
    /// owns this widget.
    pub fn submit_command(&mut self, cmd: Command)
        ensures
            GlobalPassCtx::spec_queued_command(old(self).global, final(self).global, cmd),
            *final(self) == (LifeCycleCtx { global: final(self).global, ..*old(self) }),
    {
        self.global.submit_command(cmd);
    }

    /// Queue `action` as coming from this widget.
    pub fn submit_action(&mut self, action: Action)
        ensures
            GlobalPassCtx::spec_queued_action(
                old(self).global,
                final(self).global,
                action,
                old(self).widget_state.id,
            ),
            *final(self) == (LifeCycleCtx { global: final(self).global, ..*old(self) }),
    {
        let id = self.widget_state.id;
        self.global.submit_action(action, id);
    }

    /// Request a timer event roughly `deadline_ms` milliseconds from now.
    /// The returned token is fresh and will route the fired timer back to
    /// this widget.
    pub fn request_timer(&mut self, deadline_ms: u64) -> (token: TimerToken)
        requires
            old(self).global.timers_wf(),
            old(self).global.next_timer_id < u64::MAX,
        ensures
            GlobalPassCtx::spec_added_timer(
                old(self).global,
                final(self).global,
                token,
                old(self).widget_state.id,
                deadline_ms,
            ),
            final(self).global.timers_wf(),
            *final(self) == (LifeCycleCtx { global: final(self).global, ..*old(self) }),
    {
        let id = self.widget_state.id;
        self.global.request_timer(deadline_ms, id)
    }
}

impl LayoutCtx {
    /// Request a paint pass.
    pub fn request_paint(&mut self)
        ensures
            *final(self) == (LayoutCtx {
                widget_state: old(self).widget_state.with_needs_paint(),
                ..*old(self)
            }),
    {
        self.widget_state.needs_paint = true;
    }

    /// Request a layout pass, to be honored before the next paint.
    pub fn request_layout(&mut self)
        ensures
            *final(self) == (LayoutCtx {
                widget_state: old(self).widget_state.with_needs_layout(),
                ..*old(self)
            }),
    {
        self.widget_state.needs_layout = true;
    }

    /// Request an animation frame.
    pub fn request_anim_frame(&mut self)
        ensures
            *final(self) == (LayoutCtx {
                widget_state: old(self).widget_state.with_anim_frame(),
                ..*old(self)
            }),
    {
        self.widget_state.request_anim = true;
    }

    /// Announce that this widget's children have changed.
    ///
    /// Every container that adds or removes a child must call this: it
    /// schedules a layout pass and a rebuild of the focus chain, without
    /// which the tree becomes inconsistent.
    pub fn children_changed(&mut self)
        ensures
            *final(self) == (LayoutCtx {
                widget_state: old(self).widget_state.with_children_changed(),
                ..*old(self)
            }),
    {
        self.widget_state.children_changed = true;
        self.widget_state.update_focus_chain = true;
        self.widget_state.needs_layout = true;
    }

    /// Set the explicit disabled flag of this widget. The change takes
    /// effect when the pass ends, never mid-event, and clearing the flag
    /// does not enable a widget whose ancestor is still disabled.
    pub fn set_disabled(&mut self, disabled: bool)
        ensures
            *final(self) == (LayoutCtx {
                widget_state: (WidgetState {
                    is_explicitly_disabled_new: disabled,
                    ..old(self).widget_state
                }),
                ..*old(self)
            }),
    {
        self.widget_state.is_explicitly_disabled_new = disabled;
    }

    /// Mark a child widget as stashed: kept in the tree but excluded from
    /// layout and paint. Implies `children_changed`.
    pub fn set_stashed(&mut self, child: &mut WidgetPod, stashed: bool)
        ensures
            *final(child) == (WidgetPod {
                state: WidgetState { is_stashed: stashed, ..old(child).state },
            }),
            *final(self) == (LayoutCtx {
                widget_state: old(self).widget_state.with_children_changed(),
                ..*old(self)
            }),
    {
        child.state.is_stashed = stashed;
        self.children_changed();
    }

    /// Announce that this widget's input-method state changed for a reason
    /// other than text input itself, by queueing the invalidation command
    /// to the owning window.
    pub fn invalidate_text_input(&mut self, event: ImeChange)
        ensures
            GlobalPassCtx::spec_queued_command(
                old(self).global,
                final(self).global,
                (Command {
                    selector: INVALIDATE_IME,
                    payload: Payload::Ime(ImeInvalidation {
                        widget: old(self).widget_state.id,
                        event,
                    }),
                    target: Target::Window(old(self).global.window_id),
                }),
            ),
            *final(self) == (LayoutCtx { global: final(self).global, ..*old(self) }),
    {
        let payload = Payload::Ime(ImeInvalidation { widget: self.widget_state.id, event });
        let target = Target::Window(self.global.window_id);
        let cmd = Command::new(INVALIDATE_IME, payload).to(target);
        self.global.submit_command(cmd);
    }
}

impl LayoutCtx {
    /// Queue `cmd` to be run after this pass. Commands run in submission
    /// order, and one without an explicit target goes to the window that
    /// owns this widget.
    pub fn submit_command(&mut self, cmd: Command)
        ensures
            GlobalPassCtx::spec_queued_command(old(self).global, final(self).global, cmd),
            *final(self) == (LayoutCtx { global: final(self).global, ..*old(self) }),
    {
        self.global.submit_command(cmd);
    }

    /// Queue `action` as coming from this widget.
    pub fn submit_action(&mut self, action: Action)
        ensures
            GlobalPassCtx::spec_queued_action(
                old(self).global,
                final(self).global,
                action,
                old(self).widget_state.id,
            ),
            *final(self) == (LayoutCtx { global: final(self).global, ..*old(self) }),
    {
        let id = self.widget_state.id;
        self.global.submit_action(action, id);
    }

    /// Request a timer event roughly `deadline_ms` milliseconds from now.
    /// The returned token is fresh and will route the fired timer back to
    /// this widget.
    pub fn request_timer(&mut self, deadline_ms: u64) -> (token: TimerToken)
        requires
            old(self).global.timers_wf(),
            old(self).global.next_timer_id < u64::MAX,
        ensures
            GlobalPassCtx::spec_added_timer(
                old(self).global,
                final(self).global,
                token,
                old(self).widget_state.id,
                deadline_ms,
            ),
            final(self).global.timers_wf(),
            *final(self) == (LayoutCtx { global: final(self).global, ..*old(self) }),
    {
        let id = self.widget_state.id;
        self.global.request_timer(deadline_ms, id)
    }
}


/// Whether a widget whose layout rectangle is `rect` is hot for the pointer
/// position `mouse` (in the same coordinates): hot exactly when the pointer
/// is known and inside the rectangle.
pub open spec fn spec_hot(rect: Rect, mouse: Option<Point>) -> bool {
    match mouse {
        Some(p) => rect.spec_contains(p),
        None => false,
    }
}

impl EventCtx {
    /// Set the cursor icon. It takes effect while this widget is hot or
    /// active, unless a child widget also sets a cursor — the child's wins.
    pub fn set_cursor(&mut self, cursor: &Cursor)
        ensures
            *final(self) == (EventCtx {
                widget_state: (WidgetState {
                    cursor_change: CursorChange::Overridable(*cursor),
                    ..old(self).widget_state
                }),
                ..*old(self)
            }),
    {
        self.widget_state.cursor_change = CursorChange::Overridable(*cursor);
    }

    /// Set the cursor icon, winning over any cursor preference of a child
    /// widget. It takes effect while this widget is hot or active.
    pub fn override_cursor(&mut self, cursor: &Cursor)
        ensures
            *final(self) == (EventCtx {
                widget_state: (WidgetState {
                    cursor_change: CursorChange::Override(*cursor),
                    ..old(self).widget_state
                }),
                ..*old(self)
            }),
    {
        self.widget_state.cursor_change = CursorChange::Override(*cursor);
    }

    /// Clear the cursor icon, undoing `set_cursor` and `override_cursor`.
    #[verifier::rlimit(100)]
    pub fn clear_cursor(&mut self)
        ensures
            *final(self) == (EventCtx {
                widget_state: (WidgetState {
                    cursor_change: CursorChange::Default,
                    ..old(self).widget_state
                }),
                ..*old(self)
            }),
    {
        self.widget_state.cursor_change = CursorChange::Default;
    }

    /// Submit a notification, to bubble up from this widget through its
    /// ancestors. Any target on the message is ignored: notifications
    /// travel up from their source.
    pub fn submit_notification(&mut self, note: Command)
        ensures
            final(self).notifications@ == old(self).notifications@.push(
                (Notification {
                    selector: note.selector,
                    payload: note.payload,
                    source: old(self).widget_state.id,
                }),
            ),
            *final(self) == (EventCtx {
                notifications: final(self).notifications,
                ..*old(self)
            }),
    {
        let id = self.widget_state.id;
        let note = note.into_notification(id);
        self.notifications.push(note);
    }

    /// Ask the application to create a new window, by queueing the
    /// globally-targeted window command.
    pub fn new_window(&mut self, desc: WindowDescription)
        ensures
            GlobalPassCtx::spec_queued_command(
                old(self).global,
                final(self).global,
                (Command {
                    selector: NEW_WINDOW,
                    payload: Payload::OpenWindow(desc),
                    target: Target::Global,
                }),
            ),
            *final(self) == (EventCtx { global: final(self).global, ..*old(self) }),
    {
        let cmd = Command::new(NEW_WINDOW, Payload::OpenWindow(desc)).to(Target::Global);
        self.global.submit_command(cmd);
    }

    /// Signal to parent widgets that this widget should be scrolled into
    /// view, handing them its layout rectangle.
    pub fn request_pan_to_this(&mut self)
        requires
            old(self).widget_state.geom_wf(),
        ensures
            *final(self) == (EventCtx {
                request_pan_to_child: Some(old(self).widget_state.spec_layout_rect()),
                ..*old(self)
            }),
    {
        self.request_pan_to_child = Some(self.widget_state.layout_rect());
    }

    /// Set the "active" (pointer-grab) state of this widget.
    pub fn set_active(&mut self, active: bool)
        ensures
            *final(self) == (EventCtx {
                widget_state: (WidgetState { is_active: active, ..old(self).widget_state }),
                ..*old(self)
            }),
    {
        self.widget_state.is_active = active;
    }

    /// Mark the event as handled, which stops its propagation to other
    /// widgets.
    pub fn set_handled(&mut self)
        ensures
            *final(self) == (EventCtx { is_handled: true, ..*old(self) }),
    {
        self.is_handled = true;
    }

    /// Whether the event has been handled by some widget already.
    pub fn is_handled(&self) -> (r: bool)
        ensures
            r == self.is_handled,
    {
        self.is_handled
    }

    /// Request keyboard focus for this widget.
    ///
    /// Any widget may request focus at any time. When several widgets
    /// request focus during one pass, the last request in traversal order
    /// wins, so the request is recorded even by a widget that is already
    /// focused.
    pub fn request_focus(&mut self)
        ensures
            *final(self) == (EventCtx {
                widget_state: (WidgetState {
                    request_focus: Some(FocusChange::Focus(old(self).widget_state.id)),
                    ..old(self).widget_state
                }),
                ..*old(self)
            }),
    {
        let id = self.widget_state.id;
        self.widget_state.request_focus = Some(FocusChange::Focus(id));
    }

    /// Transfer keyboard focus to the widget with the given id. Like
    /// `request_focus`, this is legal for any widget at any time.
    pub fn set_focus(&mut self, target: WidgetId)
        ensures
            *final(self) == (EventCtx {
                widget_state: (WidgetState {
                    request_focus: Some(FocusChange::Focus(target)),
                    ..old(self).widget_state
                }),
                ..*old(self)
            }),
    {
        self.widget_state.request_focus = Some(FocusChange::Next);
        self.widget_state.request_focus = Some(FocusChange::Focus(target));
    }

    /// Transfer focus to the next focusable widget.
    ///
    /// Only the currently focused widget, or an ancestor of it, may call
    /// this; for anyone else the call is a no-op and a warning is logged.
    pub fn focus_next(&mut self)
        ensures
            old(self).widget_state.has_focus ==> *final(self) == (EventCtx {
                widget_state: (WidgetState {
                    request_focus: Some(FocusChange::Next),
                    ..old(self).widget_state
                }),
                ..*old(self)
            }),
            !old(self).widget_state.has_focus ==> GlobalPassCtx::spec_logged_warning(
                old(self).global,
                final(self).global,
                Warning::FocusNextWithoutFocus,
            ) && *final(self) == (EventCtx { global: final(self).global, ..*old(self) }),
    {
        if self.has_focus() {
            self.widget_state.request_focus = Some(FocusChange::Next);
        } else {
            self.global.warnings.push(Warning::FocusNextWithoutFocus);
        }
    }

    /// Transfer focus to the previous focusable widget.
    ///
    /// Only the currently focused widget, or an ancestor of it, may call
    /// this; for anyone else the call is a no-op and a warning is logged.
    pub fn focus_prev(&mut self)
        ensures
            old(self).widget_state.has_focus ==> *final(self) == (EventCtx {
                widget_state: (WidgetState {
                    request_focus: Some(FocusChange::Previous),
                    ..old(self).widget_state
                }),
                ..*old(self)
            }),
            !old(self).widget_state.has_focus ==> GlobalPassCtx::spec_logged_warning(
                old(self).global,
                final(self).global,
                Warning::FocusPrevWithoutFocus,
            ) && *final(self) == (EventCtx { global: final(self).global, ..*old(self) }),
    {
        if self.has_focus() {
            self.widget_state.request_focus = Some(FocusChange::Previous);
        } else {
            self.global.warnings.push(Warning::FocusPrevWithoutFocus);
        }
    }

    /// Give up focus.
    ///
    /// Only the currently focused widget, or an ancestor of it, may call
    /// this; for anyone else the call is a no-op and a warning is logged.
    pub fn resign_focus(&mut self)
        ensures
            old(self).widget_state.has_focus ==> *final(self) == (EventCtx {
                widget_state: (WidgetState {
                    request_focus: Some(FocusChange::Resign),
                    ..old(self).widget_state
                }),
                ..*old(self)
            }),
            !old(self).widget_state.has_focus ==> GlobalPassCtx::spec_logged_warning(
                old(self).global,
                final(self).global,
                Warning::ResignFocusWithoutFocus,
            ) && *final(self) == (EventCtx { global: final(self).global, ..*old(self) }),
    {
        if self.has_focus() {
            self.widget_state.request_focus = Some(FocusChange::Resign);
        } else {
            self.global.warnings.push(Warning::ResignFocusWithoutFocus);
        }
    }
}

impl LifeCycleCtx {
    /// Record `child_id` as a direct child of this widget. This is called
    /// while the child is being added to the tree.
    pub fn register_child(&mut self, child_id: WidgetId)
        ensures
            final(self).widget_state.children@ == old(self).widget_state.children@.push(child_id),
            *final(self) == (LifeCycleCtx {
                widget_state: (WidgetState {
                    children: final(self).widget_state.children,
                    ..old(self).widget_state
                }),
                ..*old(self)
            }),
    {
        self.widget_state.children.push(child_id);
    }

    /// Register this widget as eligible to accept focus automatically.
    /// This is called while the focus chain is being rebuilt; the ids
    /// registered this way, in traversal order, form the new focus chain.
    pub fn register_for_focus(&mut self)
        ensures
            final(self).widget_state.focus_chain@ == old(self).widget_state.focus_chain@.push(
                old(self).widget_state.id,
            ),
            *final(self) == (LifeCycleCtx {
                widget_state: (WidgetState {
                    focus_chain: final(self).widget_state.focus_chain,
                    ..old(self).widget_state
                }),
                ..*old(self)
            }),
    {
        let id = self.widget_state.id;
        self.widget_state.focus_chain.push(id);
    }

    /// Register this widget as accepting text input, with a live
    /// input-method session.
    pub fn register_as_text_input(&mut self)
        ensures
            final(self).widget_state.text_registrations@ == old(
                self,
            ).widget_state.text_registrations@.push(
                (TextFieldRegistration {
                    widget_id: old(self).widget_state.id,
                    session: ImeSession { alive: true },
                }),
            ),
            *final(self) == (LifeCycleCtx {
                widget_state: (WidgetState {
                    text_registrations: final(self).widget_state.text_registrations,
                    ..old(self).widget_state
                }),
                ..*old(self)
            }),
    {
        let id = self.widget_state.id;
        let registration = TextFieldRegistration { widget_id: id, session: ImeSession { alive: true } };
        self.widget_state.text_registrations.push(registration);
    }

    /// Opt this widget into scroll-area semantics. Only scroll areas
    /// should use this.
    pub fn register_as_portal(&mut self)
        ensures
            *final(self) == (LifeCycleCtx {
                widget_state: (WidgetState { is_portal: true, ..old(self).widget_state }),
                ..*old(self)
            }),
    {
        self.widget_state.is_portal = true;
    }
}


/// The state of a child after its parent placed it at `origin` during
/// layout: the origin is written, the pending-placement flag is cleared,
/// and hot status is re-evaluated against the pointer position `mouse`
/// (in the parent's coordinates).
pub open spec fn spec_placed(state: WidgetState, origin: Point, mouse: Option<Point>) -> WidgetState {
    WidgetState {
        origin,
        is_expecting_place_child_call: false,
        is_hot: spec_hot(
            Rect::spec_from_origin_size(origin, state.size),
            mouse,
        ),
        ..state
    }
}

/// The parent's state after placing a child: its accumulated paint bounds
/// grow by the child's new paint rectangle, and when the placement flipped
/// the child's hot status, the child's state is merged into the parent so
/// the change propagates.
pub open spec fn spec_after_place(
    parent: WidgetState,
    child_old: WidgetState,
    origin: Point,
    mouse: Option<Point>,
) -> WidgetState {
    let child_new = spec_placed(child_old, origin, mouse);
    let grown = WidgetState {
        local_paint_rect: parent.local_paint_rect.spec_union(child_new.spec_paint_rect()),
        ..parent
    };
    if child_new.is_hot != child_old.is_hot {
        grown.spec_merge_up(child_new)
    } else {
        grown
    }
}

/// Compute the state of a child placed at `origin` with the pointer at
/// `mouse`, re-evaluating its hot status.
fn place_state(state: WidgetState, origin: Point, mouse: Option<Point>) -> (r: WidgetState)
    requires
        origin.wf(),
        state.geom_wf(),
    ensures
        r == spec_placed(state, origin, mouse),
        r.geom_wf(),
{
    let layout_rect = Rect::from_origin_size(origin, state.size);
    let hot = match mouse {
        Some(p) => layout_rect.contains(p),
        None => false,
    };
    WidgetState { origin, is_expecting_place_child_call: false, is_hot: hot, ..state }
}

impl LayoutCtx {
    /// Declare where this widget needs to paint beyond its layout bounds.
    /// The insets are normalized to be non-negative.
    pub fn set_paint_insets(&mut self, insets: Insets)
        requires
            insets.wf(),
        ensures
            *final(self) == (LayoutCtx {
                widget_state: (WidgetState {
                    paint_insets: insets.spec_nonnegative(),
                    ..old(self).widget_state
                }),
                ..*old(self)
            }),
            final(self).widget_state.paint_insets.wf(),
            final(self).widget_state.paint_insets.nonneg(),
    {
        self.widget_state.paint_insets = insets.nonnegative();
    }

    /// Set the distance from the bottom of this widget to its text
    /// baseline, used to align neighbouring text.
    pub fn set_baseline_offset(&mut self, baseline: i64)
        requires
            0 <= baseline <= COORD_LIMIT,
        ensures
            *final(self) == (LayoutCtx {
                widget_state: (WidgetState {
                    baseline_offset: baseline,
                    ..old(self).widget_state
                }),
                ..*old(self)
            }),
    {
        self.widget_state.baseline_offset = baseline;
    }

    /// Set the position of a child widget, in the parent's coordinate
    /// space.
    ///
    /// Container widgets must call this for each non-stashed child in
    /// their layout method, after computing the child's layout. It clears
    /// the child's pending-placement flag, grows the parent's accumulated
    /// paint bounds by the child's paint rectangle, and re-evaluates the
    /// child's hot status against the last known pointer position — when
    /// that status flips, the child's state is merged into the parent's.
    #[verifier::spinoff_prover]
    #[verifier::rlimit(100)]
    pub fn place_child(&mut self, child: &mut WidgetPod, origin: Point)
        requires
            origin.wf(),
            old(child).state.geom_wf(),
        ensures
            final(child).state == spec_placed(old(child).state, origin, old(self).mouse_pos),
            final(child).state.geom_wf(),
            *final(self) == (LayoutCtx {
                widget_state: spec_after_place(
                    old(self).widget_state,
                    old(child).state,
                    origin,
                    old(self).mouse_pos,
                ),
                ..*old(self)
            }),
    {
        let mut child_state = WidgetState::new(child.state.id);
        core::mem::swap(&mut child.state, &mut child_state);
        let was_hot = child_state.is_hot;
        let new_child = place_state(child_state, origin, self.mouse_pos);
        let paint_rect = new_child.paint_rect();
        self.widget_state.grow_paint_bounds(paint_rect);
        if new_child.is_hot != was_hot {
            self.widget_state.merge_up(&new_child);
        }
        child.state = new_child;
    }
}

} // verus!
