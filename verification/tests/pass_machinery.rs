//! Contexts, mutation scopes, queues and geometry, driven directly.

use masonry::command::{Action, Command, Payload, Target, WindowId};
use masonry::contexts::{EventCtx, GlobalPassCtx, LayoutCtx, LifeCycleCtx, Warning, WidgetCtx,
    WindowHandle};
use masonry::focus::resolve_focus_change;
use masonry::geometry::{Insets, Point, Rect, Size};
use masonry::text_input::{ImeSession, TextFieldRegistration};
use masonry::widget::{Cursor, CursorChange, FocusChange, WidgetId, WidgetPod, WidgetState};
use masonry::window::WindowRoot;

fn handle() -> WindowHandle {
    WindowHandle::new(Point::new(0, 0), Insets::new(0, 0, 0, 0))
}

fn global() -> GlobalPassCtx {
    GlobalPassCtx::new(WindowId(7), handle(), None)
}

fn widget_ctx(id: u64) -> WidgetCtx {
    WidgetCtx { global: global(), widget_state: WidgetState::new(WidgetId(id)) }
}

/// A root with a child (2) holding a grandchild (3), plus a sibling (4)
/// of the child.
fn nested_window() -> WindowRoot {
    let mut w = WindowRoot::new(WindowId(1), handle(), WidgetId(1), false);
    let child = w.add_child(0, WidgetId(2), false).expect("child added");
    assert!(w.add_child(child, WidgetId(3), false).is_some());
    assert!(w.add_child(0, WidgetId(4), false).is_some());
    w.post_event_pass();
    w
}

/// An invalidation set while editing a grandchild through nested mutation
/// scopes is visible on every enclosing widget once the scopes close, and
/// on an untouched sibling pod it is not.
#[test]
fn mutation_scope_propagates_to_all_levels() {
    let ctx = widget_ctx(1);
    let child = WidgetPod::new(WidgetId(2));
    let grandchild = WidgetPod::new(WidgetId(3));
    let sibling = WidgetPod::new(WidgetId(4));

    let scope = ctx.get_mut(child);
    let mut inner = scope.get_mut(grandchild);
    inner.request_layout();
    inner.request_paint();
    let (outer, grandchild) = inner.exit();
    let (ctx, child) = outer.finish();

    assert!(grandchild.state.needs_layout && grandchild.state.needs_paint);
    assert!(child.state.needs_layout && child.state.needs_paint);
    assert!(ctx.widget_state.needs_layout && ctx.widget_state.needs_paint);
    assert!(!sibling.state.needs_layout && !sibling.state.needs_paint);
}

/// The window-driven form: a layout request on a grandchild reaches the
/// whole ancestor path after the widget is checked back in, and no
/// sibling.
#[test]
fn event_end_merges_to_ancestors_only() {
    let mut w = nested_window();
    let grandchild: usize = 2;
    assert_eq!(w.widget_id_at(grandchild).0, 3);

    let mut ctx = w.event_ctx(grandchild);
    ctx.request_layout();
    let _notes = w.event_end(grandchild, ctx);

    assert!(w.widget_state_at(0).needs_layout);
    assert!(w.widget_state_at(1).needs_layout);
    assert!(w.widget_state_at(2).needs_layout);
    assert!(!w.widget_state_at(3).needs_layout); // the sibling
}

/// Requesting layout or paint twice in one pass changes nothing beyond
/// the first request.
#[test]
fn repeated_requests_are_idempotent() {
    let mut w = nested_window();
    let mut ctx = w.event_ctx(1);
    ctx.request_layout();
    ctx.request_paint();
    let once_layout = ctx.widget_state.needs_layout;
    let once_paint = ctx.widget_state.needs_paint;
    let anim_before = ctx.widget_state.request_anim;
    ctx.request_layout();
    ctx.request_paint();
    assert_eq!(ctx.widget_state.needs_layout, once_layout);
    assert_eq!(ctx.widget_state.needs_paint, once_paint);
    assert_eq!(ctx.widget_state.request_anim, anim_before);
    let _notes = w.event_end(1, ctx);
}

/// A command submitted with no explicit target lands in the queue
/// addressed to the submitting widget's own window, selector and payload
/// unchanged; an explicit target is kept.
#[test]
fn auto_command_goes_to_own_window() {
    let mut w = nested_window();
    let mut ctx = w.event_ctx(1);
    ctx.submit_command(Command::new(21, Payload::Number(9)));
    ctx.submit_command(Command::new(22, Payload::Empty).to(Target::Global));
    let _notes = w.event_end(1, ctx);

    let drained = w.take_commands();
    assert_eq!(drained.len(), 2);
    assert_eq!(drained[0].selector, 21);
    assert_eq!(drained[0].payload, Payload::Number(9));
    assert_eq!(drained[0].target, Target::Window(WindowId(1)));
    assert_eq!(drained[1].target, Target::Global);
    assert!(w.take_commands().is_empty());
}

/// Sequential focus travel and resignation are no-ops, with a warning,
/// for a widget that does not hold tree focus.
#[test]
fn focus_travel_needs_focus() {
    let mut w = nested_window();
    let mut ctx = w.event_ctx(1);
    ctx.focus_next();
    ctx.focus_prev();
    ctx.resign_focus();
    assert!(ctx.widget_state.request_focus.is_none());
    let _notes = w.event_end(1, ctx);
    w.post_event_pass();
    assert_eq!(w.focus(), None);
    let warnings = w.take_warnings();
    assert_eq!(
        warnings,
        vec![
            Warning::FocusNextWithoutFocus,
            Warning::FocusPrevWithoutFocus,
            Warning::ResignFocusWithoutFocus,
        ],
    );
}

/// A queued focus change whose requester lacks tree focus is rejected by
/// the pass epilogue and logged.
#[test]
fn stale_focus_change_is_rejected() {
    let mut w = nested_window();
    let mut ctx = w.event_ctx(1);
    ctx.widget_state.request_focus = Some(FocusChange::Next);
    let _notes = w.event_end(1, ctx);
    w.post_event_pass();
    assert_eq!(w.focus(), None);
    assert_eq!(w.take_warnings(), vec![Warning::FocusChangeRejected]);
}

/// Wrapping travel through the focus chain.
#[test]
fn chain_travel_wraps() {
    let chain = vec![WidgetId(1), WidgetId(2), WidgetId(3)];
    let next = resolve_focus_change(FocusChange::Next, true, Some(WidgetId(3)), &chain);
    assert_eq!(next, (Some(WidgetId(1)), false));
    let prev = resolve_focus_change(FocusChange::Previous, true, Some(WidgetId(1)), &chain);
    assert_eq!(prev, (Some(WidgetId(3)), false));
    let first = resolve_focus_change(FocusChange::Next, true, None, &chain);
    assert_eq!(first, (Some(WidgetId(1)), false));
    let resign = resolve_focus_change(FocusChange::Resign, false, Some(WidgetId(2)), &chain);
    assert_eq!(resign, (Some(WidgetId(2)), true));
    let take = resolve_focus_change(FocusChange::Focus(WidgetId(9)), false, None, &chain);
    assert_eq!(take, (Some(WidgetId(9)), false));
}

/// Placing a child writes its origin, clears the pending-placement flag,
/// re-evaluates hot status and grows the parent's paint bounds.
#[test]
fn place_child_updates_geometry_and_hot() {
    let mut ctx = LayoutCtx {
        global: global(),
        widget_state: WidgetState::new(WidgetId(1)),
        mouse_pos: Some(Point::new(5, 5)),
    };
    let mut child = WidgetPod::new(WidgetId(2));
    child.state.size = Size::new(10, 10);
    child.state.is_expecting_place_child_call = true;

    ctx.place_child(&mut child, Point::new(0, 0));
    assert_eq!(child.state.origin, Point::new(0, 0));
    assert!(!child.state.is_expecting_place_child_call);
    assert!(child.state.is_hot);
    assert_eq!(ctx.widget_state.local_paint_rect, Rect { x0: 0, y0: 0, x1: 10, y1: 10 });

    ctx.place_child(&mut child, Point::new(20, 20));
    assert!(!child.state.is_hot);
    assert_eq!(ctx.widget_state.local_paint_rect, Rect { x0: 0, y0: 0, x1: 30, y1: 30 });
}

/// Timer tokens are fresh per request and route back to the requesting
/// widget; an unknown token routes nowhere.
#[test]
fn timers_route_by_token() {
    let mut w = nested_window();
    let mut ctx = w.event_ctx(1);
    let t1 = ctx.request_timer(100);
    let t2 = ctx.request_timer(250);
    assert_ne!(t1, t2);
    let routed = ctx.global.widget_for_timer(t1);
    assert_eq!(routed, Some(WidgetId(2)));
    let _notes = w.event_end(1, ctx);
    assert_eq!(w.next_timer_id, 2);
}

/// The cursor choice encoded by each cursor change.
#[test]
fn cursor_change_choice() {
    assert_eq!(CursorChange::Default.cursor(), None);
    assert_eq!(CursorChange::Overridable(Cursor::IBeam).cursor(), Some(Cursor::IBeam));
    assert_eq!(CursorChange::Override(Cursor::Arrow).cursor(), Some(Cursor::Arrow));
}

/// A text-field registration reports the liveness of its session.
#[test]
fn registration_liveness() {
    let live = TextFieldRegistration {
        widget_id: WidgetId(5),
        session: ImeSession { alive: true },
    };
    let dead = TextFieldRegistration {
        widget_id: WidgetId(5),
        session: ImeSession { alive: false },
    };
    assert!(live.is_alive());
    assert!(!dead.is_alive());
}

/// Registering during lifecycle fills the widget's bookkeeping.
#[test]
fn lifecycle_registrations() {
    let mut ctx = LifeCycleCtx { global: global(), widget_state: WidgetState::new(WidgetId(8)) };
    ctx.register_child(WidgetId(9));
    ctx.register_for_focus();
    ctx.register_as_text_input();
    ctx.register_as_portal();
    assert_eq!(ctx.widget_state.children, vec![WidgetId(9)]);
    assert_eq!(ctx.widget_state.focus_chain, vec![WidgetId(8)]);
    assert_eq!(ctx.widget_state.text_registrations.len(), 1);
    assert!(ctx.widget_state.text_registrations[0].is_alive());
    assert!(ctx.widget_state.is_portal);
}

/// Merging a child's bookkeeping into its parent ors the invalidation
/// flags in and keeps the parent's identity.
#[test]
fn merge_up_or_flags() {
    let mut parent = WidgetState::new(WidgetId(1));
    let mut child = WidgetState::new(WidgetId(2));
    child.needs_layout = true;
    child.children_changed = true;
    parent.merge_up(&child);
    assert!(parent.needs_layout);
    assert!(parent.children_changed);
    assert!(!parent.needs_paint);
    assert_eq!(parent.id, WidgetId(1));
}

/// Paint insets are normalized to be non-negative.
#[test]
fn paint_insets_normalized() {
    let mut ctx = LayoutCtx {
        global: global(),
        widget_state: WidgetState::new(WidgetId(1)),
        mouse_pos: None,
    };
    ctx.set_paint_insets(Insets::new(-3, 4, -1, 2));
    assert_eq!(ctx.widget_state.paint_insets, Insets { x0: 0, y0: 4, x1: 0, y1: 2 });
    ctx.set_baseline_offset(6);
    assert_eq!(ctx.widget_state.baseline_offset, 6);
}

/// Notifications bubble from their source; event handling can be marked
/// handled; pan requests record the layout rectangle.
#[test]
fn event_ctx_channels() {
    let mut w = nested_window();
    let mut ctx = w.event_ctx(1);
    assert!(!ctx.is_handled());
    ctx.set_handled();
    assert!(ctx.is_handled());
    ctx.set_active(true);
    ctx.submit_notification(Command::new(23, Payload::Number(1)));
    ctx.request_pan_to_this();
    assert!(ctx.request_pan_to_child.is_some());
    let notes = w.event_end(1, ctx);
    assert_eq!(notes.len(), 1);
    assert_eq!(notes[0].selector, 23);
    assert_eq!(notes[0].source, WidgetId(2));
    assert!(w.widget_state_at(1).is_active);
}

/// Tree edits reject a duplicate id or an out-of-range parent, and the
/// root cannot be removed.
#[test]
fn tree_edit_rejections() {
    let mut w = nested_window();
    assert!(w.add_child(0, WidgetId(2), false).is_none()); // id taken
    assert!(w.add_child(99, WidgetId(50), false).is_none()); // no such parent
    assert!(w.remove_subtree(0).is_none()); // the root stays
    assert!(w.remove_subtree(99).is_none());
    assert_eq!(w.num_widgets(), 4);
}

/// Removing the subtree that holds the focused widget clears the focus
/// pointer as part of the teardown.
#[test]
fn removal_clears_focus_inside() {
    let mut w = WindowRoot::new(WindowId(1), handle(), WidgetId(1), false);
    let child = w.add_child(0, WidgetId(2), true).expect("added");
    assert!(w.add_child(0, WidgetId(3), true).is_some());
    w.post_event_pass();

    let mut ctx = w.event_ctx(child);
    ctx.request_focus();
    let _notes = w.event_end(child, ctx);
    w.post_event_pass();
    assert_eq!(w.focus(), Some(WidgetId(2)));

    assert!(w.remove_subtree(child).is_some());
    assert_eq!(w.focus(), None);
    w.post_event_pass();
    assert_eq!(
        w.focus_chain().iter().map(|id| id.0).collect::<Vec<u64>>(),
        vec![3],
    );
}

/// Submitting an action records the widget and window it came from.
#[test]
fn actions_carry_their_source() {
    let mut w = nested_window();
    let mut ctx = w.event_ctx(2);
    ctx.submit_action(Action(41));
    let _notes = w.event_end(2, ctx);
    let drained = w.take_actions();
    assert_eq!(drained.len(), 1);
    assert_eq!(drained[0].action, Action(41));
    assert_eq!(drained[0].widget_id, WidgetId(3));
    assert_eq!(drained[0].window_id, WindowId(1));
}
