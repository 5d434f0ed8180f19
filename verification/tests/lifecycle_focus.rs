//! Focus-chain building and focus resolution, driven through a window.

use masonry::command::{Command, Payload, Target, WindowId};
use masonry::contexts::WindowHandle;
use masonry::geometry::{Insets, Point};
use masonry::widget::WidgetId;
use masonry::window::WindowRoot;

/// An application selector asking a focus-taking widget to request focus.
const REQUEST_FOCUS: u64 = 16;
/// An application selector asking a container to change its disabled flag.
const CHANGE_DISABLED: u64 = 17;
/// An application selector asking the replacer container to swap children.
const REPLACE_CHILD: u64 = 18;

fn handle() -> WindowHandle {
    WindowHandle::new(Point::new(0, 0), Insets::new(0, 0, 0, 0))
}

/// A window whose root holds one focus-taking child per given id.
fn window_with_takers(ids: &[u64]) -> WindowRoot {
    let mut w = WindowRoot::new(WindowId(1), handle(), WidgetId(100), false);
    for &id in ids {
        let inserted = w.add_child(0, WidgetId(id), true);
        assert!(inserted.is_some());
    }
    // initial lifecycle pass: builds the focus chain
    w.post_event_pass();
    w
}

/// Deliver `cmd` the way the event pass does: every widget the target
/// admits sees it, in traversal order, and focus-taking widgets behave
/// like the usual focus-taker test widget (request focus on
/// `REQUEST_FOCUS`, change their explicit disabled flag on
/// `CHANGE_DISABLED`). The pass epilogue then runs.
fn submit_command(w: &mut WindowRoot, cmd: Command) {
    let n = w.num_widgets();
    let mut i: usize = 0;
    while i < n {
        let targeted = match cmd.target {
            Target::Widget(id) => w.widget_id_at(i) == id,
            _ => true,
        };
        if targeted {
            let mut ctx = w.event_ctx(i);
            match cmd.selector {
                REQUEST_FOCUS => {
                    if w.accepts_focus_at(i) {
                        ctx.request_focus();
                    }
                }
                CHANGE_DISABLED => {
                    if let Payload::Flag(disabled) = cmd.payload {
                        ctx.set_disabled(disabled);
                    }
                }
                _ => {}
            }
            let _notes = w.event_end(i, ctx);
        }
        i += 1;
    }
    w.post_event_pass();
}

fn chain_ids(w: &WindowRoot) -> Vec<u64> {
    w.focus_chain().iter().map(|id| id.0).collect()
}

/// Check that a focus chain is correctly built initially.
#[test]
fn build_focus_chain() {
    let harness = window_with_takers(&[1, 2, 3, 4]);

    // verify that we start out with four widgets registered for focus
    assert_eq!(chain_ids(&harness), vec![1, 2, 3, 4]);
}

/// Check that focus changes are observable per widget.
#[test]
fn focus_status_change() {
    let mut harness = window_with_takers(&[1, 2]);

    let left_focus = |w: &WindowRoot| w.focus() == Some(WidgetId(1));
    let right_focus = |w: &WindowRoot| w.focus() == Some(WidgetId(2));

    assert_eq!(left_focus(&harness), false);
    assert_eq!(right_focus(&harness), false);

    // nobody should have focus
    assert_eq!(left_focus(&harness), false);
    assert_eq!(right_focus(&harness), false);

    submit_command(
        &mut harness,
        Command {
            selector: REQUEST_FOCUS,
            payload: Payload::Empty,
            target: Target::Widget(WidgetId(1)),
        },
    );
    // check that the left widget now has focus
    assert_eq!(left_focus(&harness), true);
    assert_eq!(right_focus(&harness), false);

    submit_command(
        &mut harness,
        Command {
            selector: REQUEST_FOCUS,
            payload: Payload::Empty,
            target: Target::Widget(WidgetId(2)),
        },
    );
    // check that focus moved from the left widget to the right one
    assert_eq!(left_focus(&harness), false);
    assert_eq!(right_focus(&harness), true);
}

/// Test that the last widget to request focus during an event gets it.
#[test]
fn take_focus() {
    let mut harness = window_with_takers(&[1, 2, 3, 4]);

    // nobody should have focus
    assert_eq!(harness.focus(), None);

    // this is sent to all widgets; the last widget to request focus
    // should get it
    submit_command(
        &mut harness,
        Command { selector: REQUEST_FOCUS, payload: Payload::Empty, target: Target::Auto },
    );
    assert_eq!(harness.focus(), Some(WidgetId(4)));

    // this is sent to all widgets; the last widget to request focus
    // should still get it
    submit_command(
        &mut harness,
        Command { selector: REQUEST_FOCUS, payload: Payload::Empty, target: Target::Auto },
    );
    assert_eq!(harness.focus(), Some(WidgetId(4)));
}

#[test]
fn focus_updated_by_children_change() {
    // the fourth child sits inside a replacer container that will swap it
    // for a pair of new children when told to
    let mut harness = WindowRoot::new(WindowId(1), handle(), WidgetId(100), false);
    for id in [1u64, 2, 3] {
        assert!(harness.add_child(0, WidgetId(id), true).is_some());
    }
    let replacer = harness.add_child(0, WidgetId(10), false).expect("replacer added");
    assert!(harness.add_child(replacer, WidgetId(4), true).is_some());
    harness.post_event_pass();

    // verify that we start out with four widgets registered for focus
    assert_eq!(chain_ids(&harness), vec![1, 2, 3, 4]);

    // tell the replacer widget to swap its children
    let cmd = Command {
        selector: REPLACE_CHILD,
        payload: Payload::Empty,
        target: Target::Widget(WidgetId(10)),
    };
    assert_eq!(cmd.selector, REPLACE_CHILD);
    let four = replacer + 1;
    assert_eq!(harness.widget_id_at(four).0, 4);
    assert!(harness.remove_subtree(four).is_some());
    assert!(harness.add_child(replacer, WidgetId(5), true).is_some());
    assert!(harness.add_child(replacer, WidgetId(6), true).is_some());
    harness.post_event_pass();

    // verify that the two new children are registered for focus
    assert_eq!(chain_ids(&harness), vec![1, 2, 3, 5, 6]);
}

#[test]
fn resign_focus_on_disable() {
    // two nested focus-taking containers and a third beside them
    let mut harness = WindowRoot::new(WindowId(1), handle(), WidgetId(100), false);
    let c0 = harness.add_child(0, WidgetId(0), true).expect("added");
    assert!(harness.add_child(c0, WidgetId(1), true).is_some());
    assert!(harness.add_child(0, WidgetId(2), true).is_some());
    harness.post_event_pass();

    assert_eq!(chain_ids(&harness), vec![0, 1, 2]);
    assert_eq!(harness.focus(), None);

    let to = |id: u64| Target::Widget(WidgetId(id));
    let focus = |w: &mut WindowRoot, id: u64| {
        submit_command(
            w,
            Command { selector: REQUEST_FOCUS, payload: Payload::Empty, target: to(id) },
        )
    };
    let disable = |w: &mut WindowRoot, id: u64, flag: bool| {
        submit_command(
            w,
            Command { selector: CHANGE_DISABLED, payload: Payload::Flag(flag), target: to(id) },
        )
    };

    focus(&mut harness, 2);
    assert_eq!(chain_ids(&harness), vec![0, 1, 2]);
    assert_eq!(harness.focus(), Some(WidgetId(2)));

    disable(&mut harness, 0, true);
    assert_eq!(chain_ids(&harness), vec![2]);
    assert_eq!(harness.focus(), Some(WidgetId(2)));

    disable(&mut harness, 2, true);
    assert_eq!(chain_ids(&harness), Vec::<u64>::new());
    assert_eq!(harness.focus(), None);

    // re-enabling restores chain membership but does not restore focus
    disable(&mut harness, 0, false);
    assert_eq!(chain_ids(&harness), vec![0, 1]);
    assert_eq!(harness.focus(), None);

    focus(&mut harness, 1);
    assert_eq!(chain_ids(&harness), vec![0, 1]);
    assert_eq!(harness.focus(), Some(WidgetId(1)));

    disable(&mut harness, 2, false);
    assert_eq!(chain_ids(&harness), vec![0, 1, 2]);
    assert_eq!(harness.focus(), Some(WidgetId(1)));

    disable(&mut harness, 0, true);
    assert_eq!(chain_ids(&harness), vec![2]);
    assert_eq!(harness.focus(), None);
}
