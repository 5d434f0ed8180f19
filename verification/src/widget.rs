//! Per-widget bookkeeping: identity, the mutable [`WidgetState`] attached to
//! every tree node, and the [`WidgetPod`] ownership wrapper.
//!
//! `WidgetState` is the leaf data structure of the pass infrastructure: it
//! carries the geometry computed by layout, the invalidation flags that the
//! contexts set, and the focus bookkeeping. Its single propagation primitive
//! is [`WidgetState::merge_up`], used both when a parent places a child during
//! layout and when a mutation scope is closed, so the two paths cannot drift
//! in which flags they propagate.

use vstd::prelude::*;

use crate::geometry::{Insets, Point, Rect, Size, COORD_LIMIT};
use crate::text_input::TextFieldRegistration;

verus! {

/// An opaque, unique identifier for a widget, stable for the widget's
/// lifetime. Widgets are addressed across passes only through their id,
/// never through a raw tree reference.
#[derive(Clone, Copy, PartialEq, Eq, Structural, Debug, Hash)]
pub struct WidgetId(pub u64);

/// Methods by which a widget can attempt to change focus state.
#[derive(Clone, Copy, PartialEq, Eq, Structural, Debug)]
pub enum FocusChange {
    /// The focused widget is giving up focus.
    Resign,
    /// A specific widget wants focus.
    Focus(WidgetId),
    /// Focus should pass to the next focusable widget.
    Next,
    /// Focus should pass to the previous focusable widget.
    Previous,
}

/// A cursor icon a widget can ask the platform to show.
#[derive(Clone, Copy, PartialEq, Eq, Structural, Debug)]
pub enum Cursor {
    Arrow,
    IBeam,
    Crosshair,
    OpenHand,
    NotAllowed,
    ResizeLeftRight,
    ResizeUpDown,
}

/// The possible cursor states for a widget.
#[derive(Clone, Copy, PartialEq, Eq, Structural, Debug)]
pub enum CursorChange {
    /// No cursor has been set.
    Default,
    /// Someone set a cursor, but if a child widget also set their cursor
    /// then the child's wins.
    Overridable(Cursor),
    /// Someone set a cursor, and it wins regardless of what children say.
    Override(Cursor),
}

impl CursorChange {
    /// The cursor chosen by this change, if any.
    pub fn cursor(&self) -> (r: Option<Cursor>)
        ensures
            r == (match *self {
                CursorChange::Overridable(c) => Some(c),
                CursorChange::Override(c) => Some(c),
                CursorChange::Default => None::<Cursor>,
            }),
    {
        match self {
            CursorChange::Overridable(c) => Some(*c),
            CursorChange::Override(c) => Some(*c),
            CursorChange::Default => None,
        }
    }
}

/// Generic state for all widgets in the hierarchy.
///
/// This struct contains the widget's layout rect, flags indicating anything
/// that needs to be done in an upcoming pass, and the focus bookkeeping.
/// It is mutated only by the widget itself through a pass context, by the
/// parent's layout routine when the child is placed, and by
/// [`WidgetState::merge_up`].
pub struct WidgetState {
    pub id: WidgetId,

    // Geometry, written by the layout pass.
    /// The origin of the widget within its parent.
    pub origin: Point,
    /// The origin of the widget's parent in window coordinates.
    pub parent_window_origin: Point,
    /// The size computed on the previous layout pass.
    pub size: Size,
    /// Where the widget declared it needs to overpaint, beyond its bounds.
    pub paint_insets: Insets,
    /// Union, in the widget's own coordinates, of its paint rectangle and
    /// those of its placed children.
    pub local_paint_rect: Rect,
    /// Distance from the bottom of the widget to its text baseline.
    pub baseline_offset: i64,

    // Pass-protocol bookkeeping.
    /// Set while a parent's layout routine still owes this child a
    /// `place_child` call.
    pub is_expecting_place_child_call: bool,
    /// Set when the widget was visited (or deliberately skipped) during the
    /// current pass.
    pub is_visited: bool,

    // Status.
    /// The pointer is currently over the widget's layout rect.
    pub is_hot: bool,
    /// The widget currently holds an implicit pointer grab.
    pub is_active: bool,
    /// The focused widget is this widget or one of its descendants.
    pub has_focus: bool,
    /// The widget is temporarily excluded from layout and paint.
    pub is_stashed: bool,
    /// The widget opted into scroll-area semantics.
    pub is_portal: bool,

    // Invalidation flags requested during a pass.
    pub needs_layout: bool,
    pub needs_paint: bool,
    pub request_anim: bool,
    pub children_changed: bool,
    /// The focus chain must be rebuilt before focus can move sequentially.
    pub update_focus_chain: bool,
    /// Some widget in this subtree changed its explicit disabled flag.
    pub children_disabled_changed: bool,

    // Disabled bookkeeping.
    /// The explicit flag as of the start of the pass.
    pub is_explicitly_disabled: bool,
    /// The explicit flag as requested during the pass; takes effect when the
    /// pass epilogue runs, never mid-event.
    pub is_explicitly_disabled_new: bool,
    /// Some strict ancestor is explicitly disabled, as of the last top-down
    /// recomputation.
    pub ancestor_disabled: bool,

    // Focus bookkeeping.
    /// The ids this subtree contributed during the most recent focus-chain
    /// build.
    pub focus_chain: Vec<WidgetId>,
    /// The focus change requested during the current pass, if any.
    pub request_focus: Option<FocusChange>,

    /// The cursor requested by the widget, if any.
    pub cursor_change: CursorChange,
    /// The ids of this widget's direct children.
    pub children: Vec<WidgetId>,
    /// Input-method sessions registered by this widget.
    pub text_registrations: Vec<TextFieldRegistration>,
}

impl WidgetState {
    /// The geometry fields stay within the bounds under which the geometry
    /// arithmetic cannot overflow.
    pub open spec fn geom_wf(self) -> bool {
        &&& self.origin.wf()
        &&& self.parent_window_origin.wf()
        &&& self.size.wf()
        &&& self.paint_insets.wf()
        &&& self.local_paint_rect.wf()
        &&& 0 <= self.baseline_offset <= COORD_LIMIT
    }

    /// What a freshly constructed state for widget `id` looks like: zero
    /// geometry, no flags set, no pending requests, empty bookkeeping lists.
    pub open spec fn is_fresh(self, id: WidgetId) -> bool {
        &&& self.id == id
        &&& self.origin == (Point { x: 0, y: 0 })
        &&& self.parent_window_origin == (Point { x: 0, y: 0 })
        &&& self.size == (Size { width: 0, height: 0 })
        &&& self.paint_insets == (Insets { x0: 0, y0: 0, x1: 0, y1: 0 })
        &&& self.local_paint_rect == (Rect { x0: 0, y0: 0, x1: 0, y1: 0 })
        &&& self.baseline_offset == 0
        &&& !self.is_expecting_place_child_call
        &&& !self.is_visited
        &&& !self.is_hot
        &&& !self.is_active
        &&& !self.has_focus
        &&& !self.is_stashed
        &&& !self.is_portal
        &&& !self.needs_layout
        &&& !self.needs_paint
        &&& !self.request_anim
        &&& !self.children_changed
        &&& !self.update_focus_chain
        &&& !self.children_disabled_changed
        &&& !self.is_explicitly_disabled
        &&& !self.is_explicitly_disabled_new
        &&& !self.ancestor_disabled
        &&& self.focus_chain@ == Seq::<WidgetId>::empty()
        &&& self.request_focus is None
        &&& self.cursor_change == CursorChange::Default
        &&& self.children@ == Seq::<WidgetId>::empty()
        &&& self.text_registrations@ == Seq::<TextFieldRegistration>::empty()
    }

    /// A fresh state for widget `id`.
    pub fn new(id: WidgetId) -> (r: WidgetState)
        ensures
            r.is_fresh(id),
            r.geom_wf(),
    {
        WidgetState {
            id,
            origin: Point { x: 0, y: 0 },
            parent_window_origin: Point { x: 0, y: 0 },
            size: Size { width: 0, height: 0 },
            paint_insets: Insets { x0: 0, y0: 0, x1: 0, y1: 0 },
            local_paint_rect: Rect { x0: 0, y0: 0, x1: 0, y1: 0 },
            baseline_offset: 0,
            is_expecting_place_child_call: false,
            is_visited: false,
            is_hot: false,
            is_active: false,
            has_focus: false,
            is_stashed: false,
            is_portal: false,
            needs_layout: false,
            needs_paint: false,
            request_anim: false,
            children_changed: false,
            update_focus_chain: false,
            children_disabled_changed: false,
            is_explicitly_disabled: false,
            is_explicitly_disabled_new: false,
            ancestor_disabled: false,
            focus_chain: Vec::new(),
            request_focus: None,
            cursor_change: CursorChange::Default,
            children: Vec::new(),
            text_registrations: Vec::new(),
        }
    }

    /// The layout rectangle: the widget's origin and size, in the parent's
    /// coordinates.
    pub open spec fn spec_layout_rect(self) -> Rect {
        Rect::spec_from_origin_size(self.origin, self.size)
    }

    /// The layout rectangle, in the parent's coordinates.
    pub fn layout_rect(&self) -> (r: Rect)
        requires
            self.geom_wf(),
        ensures
            r == self.spec_layout_rect(),
            r.wf(),
    {
        Rect::from_origin_size(self.origin, self.size)
    }

    /// The paint rectangle: the layout rectangle grown by the paint insets.
    pub open spec fn spec_paint_rect(self) -> Rect {
        self.spec_layout_rect().spec_inflate(self.paint_insets)
    }

    /// The paint rectangle, in the parent's coordinates.
    pub fn paint_rect(&self) -> (r: Rect)
        requires
            self.geom_wf(),
        ensures
            r == self.spec_paint_rect(),
            r.wf(),
    {
        self.layout_rect().inflate(self.paint_insets)
    }

    /// The size computed on the previous layout pass.
    pub fn size(&self) -> (r: Size)
        ensures
            r == self.size,
    {
        self.size
    }

    /// The widget's origin in window coordinates.
    pub open spec fn spec_window_origin(self) -> Point {
        self.parent_window_origin.spec_translate(self.origin)
    }

    /// The widget's origin in window coordinates.
    pub fn window_origin(&self) -> (r: Point)
        requires
            self.geom_wf(),
        ensures
            r == self.spec_window_origin(),
    {
        self.parent_window_origin.translate(self.origin)
    }

    /// Whether the widget is disabled: its explicit flag, or inherited from
    /// any ancestor's explicit flag.
    pub open spec fn spec_is_disabled(self) -> bool {
        self.is_explicitly_disabled || self.ancestor_disabled
    }

    /// Whether the widget is disabled, explicitly or through an ancestor.
    pub fn is_disabled(&self) -> (r: bool)
        ensures
            r == self.spec_is_disabled(),
    {
        self.is_explicitly_disabled || self.ancestor_disabled
    }

    /// Grow the accumulated paint bounds by `r`.
    pub fn grow_paint_bounds(&mut self, r: Rect)
        ensures
            *final(self) == (WidgetState {
                local_paint_rect: old(self).local_paint_rect.spec_union(r),
                ..*old(self)
            }),
    {
        self.local_paint_rect = self.local_paint_rect.union(r);
    }

    /// The state with a paint pass requested.
    pub open spec fn with_needs_paint(self) -> WidgetState {
        WidgetState { needs_paint: true, ..self }
    }

    /// The state with a layout pass requested.
    pub open spec fn with_needs_layout(self) -> WidgetState {
        WidgetState { needs_layout: true, ..self }
    }

    /// The state with an animation frame requested.
    pub open spec fn with_anim_frame(self) -> WidgetState {
        WidgetState { request_anim: true, ..self }
    }

    /// The state after the widget announced that its children changed:
    /// layout is requested and the focus chain is marked for rebuilding.
    pub open spec fn with_children_changed(self) -> WidgetState {
        WidgetState { children_changed: true, update_focus_chain: true, needs_layout: true, ..self }
    }

    /// The state `parent` becomes when the dirty bookkeeping of `child` is
    /// merged into it: every invalidation flag is or-ed in, a pending change
    /// of the child's explicit disabled flag is announced, tree-focus is
    /// propagated, and the paint bounds grow by the child's paint rectangle.
    /// Nothing that belongs solely to the parent (identity, geometry,
    /// pending requests) is overwritten.
    #[verifier::opaque]
    pub open spec fn spec_merge_up(self, child: WidgetState) -> WidgetState {
        WidgetState {
            needs_layout: self.needs_layout || child.needs_layout,
            needs_paint: self.needs_paint || child.needs_paint,
            request_anim: self.request_anim || child.request_anim,
            children_changed: self.children_changed || child.children_changed,
            update_focus_chain: self.update_focus_chain || child.update_focus_chain,
            children_disabled_changed: self.children_disabled_changed
                || child.children_disabled_changed
                || child.is_explicitly_disabled_new != child.is_explicitly_disabled,
            has_focus: self.has_focus || child.has_focus,
            local_paint_rect: self.local_paint_rect.spec_union(child.spec_paint_rect()),
            ..self
        }
    }

    /// Merge the dirty bookkeeping of `child` into this (parent) state.
    ///
    /// This is the single propagation primitive of the crate: both
    /// `place_child` and the mutation handles go through it, so the two
    /// paths propagate exactly the same flags.
    pub fn merge_up(&mut self, child: &WidgetState)
        requires
            child.geom_wf(),
        ensures
            *final(self) == old(self).spec_merge_up(*child),
            old(self).geom_wf() ==> final(self).geom_wf(),
    {
        proof {
            reveal(WidgetState::spec_merge_up);
        }
        let mut taken = WidgetState::new(self.id);
        core::mem::swap(self, &mut taken);
        let local_paint_rect = taken.local_paint_rect.union(child.paint_rect());
        *self = WidgetState {
            needs_layout: taken.needs_layout || child.needs_layout,
            needs_paint: taken.needs_paint || child.needs_paint,
            request_anim: taken.request_anim || child.request_anim,
            children_changed: taken.children_changed || child.children_changed,
            update_focus_chain: taken.update_focus_chain || child.update_focus_chain,
            children_disabled_changed: taken.children_disabled_changed
                || child.children_disabled_changed
                || child.is_explicitly_disabled_new != child.is_explicitly_disabled,
            has_focus: taken.has_focus || child.has_focus,
            local_paint_rect,
            ..taken
        };
    }
}

/// The ownership wrapper placed around every child widget.
///
/// A widget's children must be expressed as pods so the framework can
/// intercept every child visitation: the pod owns the child's
/// [`WidgetState`], including the flags that record whether the required
/// per-pass calls (placement, visitation) have happened.
pub struct WidgetPod {
    pub state: WidgetState,
}

impl WidgetPod {
    /// Wrap a new widget with identity `id`.
    pub fn new(id: WidgetId) -> (r: WidgetPod)
        ensures
            r.state.is_fresh(id),
            r.state.geom_wf(),
    {
        WidgetPod { state: WidgetState::new(id) }
    }

    /// Record that the child was deliberately visited or skipped during the
    /// current pass.
    pub fn mark_as_visited(&mut self)
        ensures
            *final(self) == (WidgetPod {
                state: WidgetState { is_visited: true, ..old(self).state },
            }),
    {
        self.state.is_visited = true;
    }

    /// The wrapped widget's layout rectangle, in the parent's coordinates.
    pub fn layout_rect(&self) -> (r: Rect)
        requires
            self.state.geom_wf(),
        ensures
            r == self.state.spec_layout_rect(),
    {
        self.state.layout_rect()
    }

    /// The wrapped widget's paint rectangle, in the parent's coordinates.
    pub fn paint_rect(&self) -> (r: Rect)
        requires
            self.state.geom_wf(),
        ensures
            r == self.state.spec_paint_rect(),
    {
        self.state.paint_rect()
    }
}


/// Law: requesting a layout pass twice in the same pass has the same
/// effect on the widget's state as requesting it once.
pub proof fn lemma_request_layout_idempotent(s: WidgetState)
    ensures
        s.with_needs_layout().with_needs_layout() == s.with_needs_layout(),
{
}

/// Law: requesting a paint pass twice in the same pass has the same
/// effect on the widget's state as requesting it once.
pub proof fn lemma_request_paint_idempotent(s: WidgetState)
    ensures
        s.with_needs_paint().with_needs_paint() == s.with_needs_paint(),
{
}

} // verus!
