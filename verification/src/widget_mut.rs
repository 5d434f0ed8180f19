//! The scoped mutation handle: edit a live child widget while every
//! invalidation it requests is merged into all enclosing widgets.
//!
//! A [`WidgetMut`] is opened from a context with `get_mut`, handing over the
//! child's pod; opening a handle on a grandchild nests, pushing the current
//! widget onto the stack of enclosing states. Closing a level with
//! [`WidgetMut::exit`] gives the pod back and merges the finished widget's
//! dirty bookkeeping into its parent with the same `merge_up` primitive the
//! layout pass uses; closing the outermost level reconstitutes the original
//! context. A leaf-level mutation is therefore visible as "needs work" on
//! every enclosing widget by the time the scope is fully closed —
//! [`lemma_unwind_propagates_invalidation`] states that guarantee.

use vstd::prelude::*;

use crate::command::{Action, Command, Notification};
use crate::contexts::{EventCtx, GlobalPassCtx, LifeCycleCtx, TimerToken, WidgetCtx};
use crate::geometry::Rect;
use crate::widget::{WidgetPod, WidgetState};

verus! {

/// What an [`EventCtx`] carries beyond the shared pieces; kept aside while
/// a mutation scope opened from one is active.
pub struct EventBase {
    pub notifications: Vec<Notification>,
    pub is_handled: bool,
    pub is_root: bool,
    pub request_pan_to_child: Option<Rect>,
}

/// A scoped handle editing one widget, with the states of all enclosing
/// widgets stacked up behind it.
pub struct WidgetMut {
    pub global: GlobalPassCtx,
    /// The states of the enclosing widgets, outermost first; the last entry
    /// is the parent of the widget being edited.
    pub parents: Vec<WidgetState>,
    /// The state of the widget being edited.
    pub widget_state: WidgetState,
    /// Present when the scope was opened from an [`EventCtx`].
    pub event_base: Option<EventBase>,
}

impl WidgetCtx {
    /// Open a mutation scope on `child`. The context is consumed and comes
    /// back when the scope is closed with [`WidgetMut::finish`].
    pub fn get_mut(self, child: WidgetPod) -> (m: WidgetMut)
        ensures
            m.global == self.global,
            m.parents@ == Seq::<WidgetState>::empty().push(self.widget_state),
            m.widget_state == child.state,
            m.event_base is None,
    {
        let mut parents: Vec<WidgetState> = Vec::new();
        parents.push(self.widget_state);
        WidgetMut { global: self.global, parents, widget_state: child.state, event_base: None }
    }
}

impl LifeCycleCtx {
    /// Open a mutation scope on `child`. The context is consumed and comes
    /// back when the scope is closed with [`WidgetMut::finish_lifecycle`].
    pub fn get_mut(self, child: WidgetPod) -> (m: WidgetMut)
        ensures
            m.global == self.global,
            m.parents@ == Seq::<WidgetState>::empty().push(self.widget_state),
            m.widget_state == child.state,
            m.event_base is None,
    {
        let mut parents: Vec<WidgetState> = Vec::new();
        parents.push(self.widget_state);
        WidgetMut { global: self.global, parents, widget_state: child.state, event_base: None }
    }
}

impl EventCtx {
    /// Open a mutation scope on `child`. The context is consumed and comes
    /// back when the scope is closed with [`WidgetMut::finish_event`].
    pub fn get_mut(self, child: WidgetPod) -> (m: WidgetMut)
        ensures
            m.global == self.global,
            m.parents@ == Seq::<WidgetState>::empty().push(self.widget_state),
            m.widget_state == child.state,
            m.event_base matches Some(b) && b.notifications == self.notifications
                && b.is_handled == self.is_handled && b.is_root == self.is_root
                && b.request_pan_to_child == self.request_pan_to_child,
    {
        let mut parents: Vec<WidgetState> = Vec::new();
        parents.push(self.widget_state);
        WidgetMut {
            global: self.global,
            parents,
            widget_state: child.state,
            event_base: Some(
                EventBase {
                    notifications: self.notifications,
                    is_handled: self.is_handled,
                    is_root: self.is_root,
                    request_pan_to_child: self.request_pan_to_child,
                },
            ),
        }
    }
}

impl WidgetMut {
    /// Open a nested scope on a child of the widget being edited.
    pub fn get_mut(self, child: WidgetPod) -> (m: WidgetMut)
        ensures
            m.global == self.global,
            m.parents@ == self.parents@.push(self.widget_state),
            m.widget_state == child.state,
            m.event_base == self.event_base,
    {
        let mut parents = self.parents;
        parents.push(self.widget_state);
        WidgetMut { global: self.global, parents, widget_state: child.state, event_base: self.event_base }
    }

    /// Close a nested scope: hand the edited widget's pod back and merge
    /// its dirty bookkeeping into the enclosing widget, which becomes the
    /// edited widget of the returned handle.
    pub fn exit(self) -> (r: (WidgetMut, WidgetPod))
        requires
            self.parents@.len() >= 2,
            self.widget_state.geom_wf(),
        ensures
            r.1.state == self.widget_state,
            r.0.widget_state == self.parents@.last().spec_merge_up(self.widget_state),
            r.0.parents@ == self.parents@.drop_last(),
            r.0.global == self.global,
            r.0.event_base == self.event_base,
    {
        let mut parents = self.parents;
        let popped = parents.pop();
        match popped {
            Some(mut parent) => {
                parent.merge_up(&self.widget_state);
                (
                    WidgetMut {
                        global: self.global,
                        parents,
                        widget_state: parent,
                        event_base: self.event_base,
                    },
                    WidgetPod { state: self.widget_state },
                )
            },
            None => {
                // unreachable: the stack holds at least two entries
                proof {
                    assert(false);
                }
                (
                    WidgetMut {
                        global: self.global,
                        parents,
                        widget_state: self.widget_state,
                        event_base: self.event_base,
                    },
                    WidgetPod { state: WidgetState::new(crate::widget::WidgetId(0)) },
                )
            },
        }
    }

    /// Close the outermost scope of a handle opened from a [`WidgetCtx`]:
    /// hand the pod back and reconstitute the context, with the edited
    /// widget's dirty bookkeeping merged into the context's widget.
    pub fn finish(self) -> (r: (WidgetCtx, WidgetPod))
        requires
            self.parents@.len() == 1,
            self.event_base is None,
            self.widget_state.geom_wf(),
        ensures
            r.1.state == self.widget_state,
            r.0.global == self.global,
            r.0.widget_state == self.parents@[0].spec_merge_up(self.widget_state),
    {
        let mut parents = self.parents;
        let popped = parents.pop();
        match popped {
            Some(mut parent) => {
                parent.merge_up(&self.widget_state);
                (
                    WidgetCtx { global: self.global, widget_state: parent },
                    WidgetPod { state: self.widget_state },
                )
            },
            None => {
                proof {
                    assert(false);
                }
                (
                    WidgetCtx { global: self.global, widget_state: self.widget_state },
                    WidgetPod { state: WidgetState::new(crate::widget::WidgetId(0)) },
                )
            },
        }
    }

    /// Close the outermost scope of a handle opened from a
    /// [`LifeCycleCtx`], as [`WidgetMut::finish`] does for a `WidgetCtx`.
    pub fn finish_lifecycle(self) -> (r: (LifeCycleCtx, WidgetPod))
        requires
            self.parents@.len() == 1,
            self.event_base is None,
            self.widget_state.geom_wf(),
        ensures
            r.1.state == self.widget_state,
            r.0.global == self.global,
            r.0.widget_state == self.parents@[0].spec_merge_up(self.widget_state),
    {
        let (ctx, pod) = self.finish();
        (LifeCycleCtx { global: ctx.global, widget_state: ctx.widget_state }, pod)
    }

    /// Close the outermost scope of a handle opened from an [`EventCtx`]:
    /// hand the pod back and reconstitute the event context, with the
    /// edited widget's dirty bookkeeping merged into the context's widget.
    pub fn finish_event(self) -> (r: (EventCtx, WidgetPod))
        requires
            self.parents@.len() == 1,
            self.event_base is Some,
            self.widget_state.geom_wf(),
        ensures
            r.1.state == self.widget_state,
            r.0.global == self.global,
            r.0.widget_state == self.parents@[0].spec_merge_up(self.widget_state),
            self.event_base matches Some(b) && r.0.notifications == b.notifications
                && r.0.is_handled == b.is_handled && r.0.is_root == b.is_root
                && r.0.request_pan_to_child == b.request_pan_to_child,
    {
        let mut parents = self.parents;
        let popped = parents.pop();
        let base = match self.event_base {
            Some(b) => b,
            None => {
                proof {
                    assert(false);
                }
                EventBase {
                    notifications: Vec::new(),
                    is_handled: false,
                    is_root: false,
                    request_pan_to_child: None,
                }
            },
        };
        match popped {
            Some(mut parent) => {
                parent.merge_up(&self.widget_state);
                (
                    EventCtx {
                        global: self.global,
                        widget_state: parent,
                        notifications: base.notifications,
                        is_handled: base.is_handled,
                        is_root: base.is_root,
                        request_pan_to_child: base.request_pan_to_child,
                    },
                    WidgetPod { state: self.widget_state },
                )
            },
            None => {
                proof {
                    assert(false);
                }
                (
                    EventCtx {
                        global: self.global,
                        widget_state: self.widget_state,
                        notifications: base.notifications,
                        is_handled: base.is_handled,
                        is_root: base.is_root,
                        request_pan_to_child: base.request_pan_to_child,
                    },
                    WidgetPod { state: WidgetState::new(crate::widget::WidgetId(0)) },
                )
            },
        }
    }

    /// Request a paint pass for the widget being edited.
    pub fn request_paint(&mut self)
        ensures
            *final(self) == (WidgetMut {
                widget_state: old(self).widget_state.with_needs_paint(),
                ..*old(self)
            }),
    {
        self.widget_state.needs_paint = true;
    }

    /// Request a layout pass for the widget being edited.
    pub fn request_layout(&mut self)
        ensures
            *final(self) == (WidgetMut {
                widget_state: old(self).widget_state.with_needs_layout(),
                ..*old(self)
            }),
    {
        self.widget_state.needs_layout = true;
    }

    /// Request an animation frame for the widget being edited.
    pub fn request_anim_frame(&mut self)
        ensures
            *final(self) == (WidgetMut {
                widget_state: old(self).widget_state.with_anim_frame(),
                ..*old(self)
            }),
    {
        self.widget_state.request_anim = true;
    }

    /// Announce that the edited widget's children changed.
    pub fn children_changed(&mut self)
        ensures
            *final(self) == (WidgetMut {
                widget_state: old(self).widget_state.with_children_changed(),
                ..*old(self)
            }),
    {
        self.widget_state.children_changed = true;
        self.widget_state.update_focus_chain = true;
        self.widget_state.needs_layout = true;
    }

    /// Set the explicit disabled flag of the widget being edited.
    pub fn set_disabled(&mut self, disabled: bool)
        ensures
            *final(self) == (WidgetMut {
                widget_state: (WidgetState {
                    is_explicitly_disabled_new: disabled,
                    ..old(self).widget_state
                }),
                ..*old(self)
            }),
    {
        self.widget_state.is_explicitly_disabled_new = disabled;
    }

    /// Queue `cmd`, as from the widget being edited.
    pub fn submit_command(&mut self, cmd: Command)
        ensures
            GlobalPassCtx::spec_queued_command(old(self).global, final(self).global, cmd),
            *final(self) == (WidgetMut { global: final(self).global, ..*old(self) }),
    {
        self.global.submit_command(cmd);
    }

    /// Queue `action`, as from the widget being edited.
    pub fn submit_action(&mut self, action: Action)
        ensures
            GlobalPassCtx::spec_queued_action(
                old(self).global,
                final(self).global,
                action,
                old(self).widget_state.id,
            ),
            *final(self) == (WidgetMut { global: final(self).global, ..*old(self) }),
    {
        let id = self.widget_state.id;
        self.global.submit_action(action, id);
    }
}

/// The states of every level of a mutation scope once it is fully closed,
/// outermost level first, with the edited widget's state last: each
/// enclosing level is its original state with the finished level below it
/// merged in.
pub open spec fn spec_unwind(parents: Seq<WidgetState>, current: WidgetState) -> Seq<WidgetState>
    decreases parents.len(),
{
    if parents.len() == 0 {
        seq![current]
    } else {
        spec_unwind(parents.drop_last(), parents.last().spec_merge_up(current)).push(current)
    }
}

/// Law: invalidation flags set on the widget at the bottom of a mutation
/// scope are set on every enclosing widget once the scope is fully closed.
/// This holds for any nesting depth.
pub proof fn lemma_unwind_propagates_invalidation(parents: Seq<WidgetState>, current: WidgetState)
    ensures
        forall|k: int|
            0 <= k < spec_unwind(parents, current).len() ==> {
                let s = #[trigger] spec_unwind(parents, current)[k];
                &&& (current.needs_layout ==> s.needs_layout)
                &&& (current.needs_paint ==> s.needs_paint)
                &&& (current.request_anim ==> s.request_anim)
                &&& (current.children_changed ==> s.children_changed)
                &&& (current.update_focus_chain ==> s.update_focus_chain)
            },
    decreases parents.len(),
{
    reveal(WidgetState::spec_merge_up);
    if parents.len() > 0 {
        let merged = parents.last().spec_merge_up(current);
        lemma_unwind_propagates_invalidation(parents.drop_last(), merged);
        assert forall|k: int|
            0 <= k < spec_unwind(parents, current).len() implies {
                let s = #[trigger] spec_unwind(parents, current)[k];
                &&& (current.needs_layout ==> s.needs_layout)
                &&& (current.needs_paint ==> s.needs_paint)
                &&& (current.request_anim ==> s.request_anim)
                &&& (current.children_changed ==> s.children_changed)
                &&& (current.update_focus_chain ==> s.update_focus_chain)
            } by {
            let whole = spec_unwind(parents, current);
            let inner = spec_unwind(parents.drop_last(), merged);
            if k < whole.len() - 1 {
                assert(whole[k] == inner[k]);
            } else {
                assert(whole[k] == current);
            }
        }
    }
}

} // verus!
