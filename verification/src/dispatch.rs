//! Checking widgets in and out of the window tree for event handling, and
//! the bottom-up propagation that keeps every ancestor's invalidation
//! bookkeeping a superset of its descendants'.
//!
//! A widget is checked out with [`WindowRoot::event_ctx`], which hands its
//! state and the window's queues to a fresh [`EventCtx`]; the widget's code
//! (or whatever drives the pass) calls the context's methods; and
//! [`WindowRoot::event_end`] checks the widget back in, merging its dirty
//! bookkeeping into every ancestor with the same `merge_up` primitive the
//! layout pass uses.

use vstd::prelude::*;

use crate::command::{ActionEntry, Command, Notification};
use crate::contexts::{EventCtx, GlobalPassCtx, TimerBinding, Warning};
use crate::widget::WidgetState;
use crate::window::{
    in_subtree, lemma_in_subtree_same_depths, lemma_tree_wf_same_skeleton, spec_absorbs_flags,
    spec_processed, tree_wf, WidgetNode, WindowRoot,
};

verus! {

/// Merge the state of the widget at `cur` into the widget at `p`,
/// touching nothing else.
fn merge_step(nodes: &mut Vec<WidgetNode>, p: usize, cur: usize)
    requires
        p < cur < old(nodes)@.len(),
        old(nodes)@[cur as int].pod.state.geom_wf(),
    ensures
        final(nodes)@.len() == old(nodes)@.len(),
        forall|j: int|
            0 <= j < old(nodes)@.len() && j != p ==> final(nodes)@[j] == old(nodes)@[j],
        final(nodes)@[p as int].pod.state == old(nodes)@[p as int].pod.state.spec_merge_up(
            old(nodes)@[cur as int].pod.state,
        ),
        final(nodes)@[p as int].depth == old(nodes)@[p as int].depth,
        final(nodes)@[p as int].accepts_focus == old(nodes)@[p as int].accepts_focus,
        old(nodes)@[p as int].pod.state.geom_wf() ==> final(nodes)@[p as int].pod.state.geom_wf(),
{
    let mid = nodes[cur].pod.state.id;
    let mut tmp = WidgetState::new(mid);
    core::mem::swap(&mut nodes[cur].pod.state, &mut tmp);
    nodes[p].pod.state.merge_up(&tmp);
    core::mem::swap(&mut nodes[cur].pod.state, &mut tmp);
}

/// Merge the dirty bookkeeping of the widget at `i` into every one of its
/// ancestors, bottom-up, with `merge_up` at each step.
///
/// Afterwards every ancestor has absorbed the widget's invalidation flags,
/// while every other widget — the widget at `i` itself included — is
/// untouched: an invalidation never leaks to a sibling.
#[verifier::spinoff_prover]
#[verifier::rlimit(100)]
fn merge_chain(nodes: Vec<WidgetNode>, i: usize) -> (r: Vec<WidgetNode>)
    requires
        tree_wf(nodes@),
        i < nodes@.len(),
    ensures
        r@.len() == nodes@.len(),
        forall|j: int|
            0 <= j < nodes@.len() && !(in_subtree(nodes@, j, i as int) && j != i) ==> r@[j]
                == nodes@[j],
        forall|j: int|
            0 <= j < nodes@.len() && in_subtree(nodes@, j, i as int) && j != i ==> spec_processed(
                nodes@[j],
                (#[trigger] r@[j]),
                nodes@[i as int].pod.state,
            ),
        tree_wf(r@),
{
    let ghost s0 = nodes@;
    let mut nodes = nodes;
    proof {
        reveal(spec_absorbs_flags);
    }
    let mut cur: usize = i;
    while cur > 0
        invariant
            tree_wf(s0),
            i < s0.len(),
            nodes@.len() == s0.len(),
            cur <= i,
            in_subtree(s0, cur as int, i as int),
            forall|j: int|
                0 <= j < s0.len() && !(in_subtree(s0, j, i as int) && j != i && j >= cur) ==> (
                #[trigger] nodes@[j]) == s0[j],
            forall|j: int|
                0 <= j < s0.len() && in_subtree(s0, j, i as int) && j != i && j >= cur
                    ==> spec_processed(s0[j], (#[trigger] nodes@[j]), s0[i as int].pod.state),
            spec_absorbs_flags(nodes@[cur as int].pod.state, s0[i as int].pod.state),
            nodes@[cur as int].pod.state.geom_wf(),
            nodes@[cur as int].depth == s0[cur as int].depth,
        decreases cur,
    {
        let dcur = nodes[cur].depth;
        // find the parent: the nearest earlier node that is shallower
        let mut p: usize = cur - 1;
        while p > 0 && nodes[p].depth >= dcur
            invariant
                nodes@.len() == s0.len(),
                cur < s0.len(),
                0 <= p < cur,
                dcur == nodes@[cur as int].depth,
                forall|m: int| p < m < cur ==> (#[trigger] nodes@[m]).depth >= dcur,
            decreases p,
        {
            p = p - 1;
        }
        let ghost pre = nodes@;
        proof {
            reveal(spec_processed);
            // every node keeps its depth: unprocessed ones equal s0,
            // processed ones have it stated in the bundle
            assert forall|j: int| 0 <= j < s0.len() implies (#[trigger] nodes@[j]).depth
                == s0[j].depth by {
                if !(in_subtree(s0, j, i as int) && j != i && j >= cur) {
                }
            }
            // the root has depth 0 and cur has positive depth, so the scan
            // stopped on a strictly shallower node: the parent
            assert(s0[cur as int].depth >= 1);
            assert(nodes@[p as int].depth < dcur);
            // p is an ancestor of cur, hence of i
            assert forall|m: int| p < m <= i implies (#[trigger] s0[m]).depth > s0[p as int].depth
                by {
                if m < cur {
                    assert(nodes@[m].depth >= dcur);
                } else if m > cur {
                    assert(s0[m].depth > s0[cur as int].depth);
                }
            }
            assert(in_subtree(s0, p as int, i as int));
            // and no ancestor of i lies strictly between p and cur
            assert forall|j: int| p < j < cur implies !(in_subtree(s0, j, i as int) && j != i) by {
                if in_subtree(s0, j, i as int) && j != i {
                    assert(s0[cur as int].depth > s0[j].depth);
                    assert(nodes@[j].depth >= dcur);
                }
            }
            assert(nodes@[p as int] == s0[p as int]);
        }
        merge_step(&mut nodes, p, cur);
        proof {
            assert(spec_processed(s0[p as int], nodes@[p as int], s0[i as int].pod.state)
                && spec_absorbs_flags(nodes@[p as int].pod.state, s0[i as int].pod.state)) by {
                reveal(spec_processed);
                reveal(spec_absorbs_flags);
                reveal(WidgetState::spec_merge_up);
                assert(spec_absorbs_flags(pre[cur as int].pod.state, s0[i as int].pod.state));
            }
        }
        cur = p;
    }
    proof {
        reveal(spec_processed);
        assert forall|j: int| 0 <= j < s0.len() && in_subtree(s0, j, i as int) && j != i
            implies j >= cur by {}
        assert forall|j: int| 0 <= j < s0.len() implies (#[trigger] nodes@[j]).depth
            == s0[j].depth && nodes@[j].pod.state.id == s0[j].pod.state.id
            && nodes@[j].pod.state.geom_wf() by {
            if !(in_subtree(s0, j, i as int) && j != i) {
                assert(nodes@[j] == s0[j]);
            }
        }
        lemma_tree_wf_same_skeleton(s0, nodes@);
    }
    nodes
}

impl WindowRoot {
    /// Merge the dirty bookkeeping of the widget at `i` into every one of
    /// its ancestors; an invalidation requested anywhere in a subtree is
    /// afterwards visible on the whole path up to the root, and nowhere
    /// else.
    pub fn merge_to_ancestors(&mut self, i: usize)
        requires
            old(self).wf(),
            i < old(self).nodes@.len(),
        ensures
            *final(self) == (WindowRoot { nodes: final(self).nodes, ..*old(self) }),
            final(self).nodes@.len() == old(self).nodes@.len(),
            forall|j: int|
                0 <= j < old(self).nodes@.len() && !(in_subtree(old(self).nodes@, j, i as int)
                    && j != i) ==> final(self).nodes@[j] == old(self).nodes@[j],
            forall|j: int|
                0 <= j < old(self).nodes@.len() && in_subtree(old(self).nodes@, j, i as int)
                    && j != i ==> spec_processed(
                    old(self).nodes@[j],
                    (#[trigger] final(self).nodes@[j]),
                    old(self).nodes@[i as int].pod.state,
                ),
            final(self).wf(),
    {
        let mut nodes: Vec<WidgetNode> = Vec::new();
        core::mem::swap(&mut self.nodes, &mut nodes);
        let nodes = merge_chain(nodes, i);
        self.nodes = nodes;
    }

    /// Check the widget at `i` out of the tree for event handling: hand its
    /// state and the window's queues to a fresh [`EventCtx`]. Until
    /// [`WindowRoot::event_end`] hands them back, the node keeps a blank
    /// state with the same identity and the window's queues are empty.
    #[verifier::spinoff_prover]
    #[verifier::rlimit(100)]
    pub fn event_ctx(&mut self, i: usize) -> (ctx: EventCtx)
        requires
            old(self).wf(),
            i < old(self).nodes@.len(),
        ensures
            ctx.global.window_id == old(self).window_id,
            ctx.global.window == old(self).handle,
            ctx.global.focus_widget == old(self).focus,
            ctx.global.command_queue@ == old(self).command_queue@,
            ctx.global.action_queue@ == old(self).action_queue@,
            ctx.global.timers@ == old(self).timers@,
            ctx.global.next_timer_id == old(self).next_timer_id,
            ctx.global.warnings@ == old(self).warnings@,
            ctx.global.timers_wf(),
            ctx.widget_state == old(self).nodes@[i as int].pod.state,
            ctx.notifications@ == Seq::<Notification>::empty(),
            !ctx.is_handled,
            ctx.is_root == (i == 0),
            ctx.request_pan_to_child is None,
            final(self).window_id == old(self).window_id,
            final(self).handle == old(self).handle,
            final(self).focus == old(self).focus,
            final(self).focus_chain@ == old(self).focus_chain@,
            final(self).command_queue@ == Seq::<Command>::empty(),
            final(self).action_queue@ == Seq::<ActionEntry>::empty(),
            final(self).timers@ == Seq::<TimerBinding>::empty(),
            final(self).warnings@ == Seq::<Warning>::empty(),
            final(self).next_timer_id == old(self).next_timer_id,
            final(self).nodes@.len() == old(self).nodes@.len(),
            forall|j: int|
                0 <= j < old(self).nodes@.len() && j != i ==> final(self).nodes@[j] == old(
                    self,
                ).nodes@[j],
            final(self).nodes@[i as int].pod.state.is_fresh(
                old(self).nodes@[i as int].pod.state.id,
            ),
            final(self).nodes@[i as int].depth == old(self).nodes@[i as int].depth,
            final(self).nodes@[i as int].accepts_focus == old(self).nodes@[i
                as int].accepts_focus,
            final(self).wf(),
    {
        let mut cq: Vec<Command> = Vec::new();
        core::mem::swap(&mut self.command_queue, &mut cq);
        let mut aq: Vec<ActionEntry> = Vec::new();
        core::mem::swap(&mut self.action_queue, &mut aq);
        let mut tm: Vec<TimerBinding> = Vec::new();
        core::mem::swap(&mut self.timers, &mut tm);
        let mut wr: Vec<Warning> = Vec::new();
        core::mem::swap(&mut self.warnings, &mut wr);
        let mut st = WidgetState::new(self.nodes[i].pod.state.id);
        core::mem::swap(&mut self.nodes[i].pod.state, &mut st);
        let global = GlobalPassCtx {
            window_id: self.window_id,
            window: self.handle,
            focus_widget: self.focus,
            command_queue: cq,
            action_queue: aq,
            timers: tm,
            next_timer_id: self.next_timer_id,
            warnings: wr,
        };
        proof {
            assert forall|k: int| 0 <= k < self.nodes@.len() implies (#[trigger] self.nodes@[k]).depth
                == old(self).nodes@[k].depth && self.nodes@[k].pod.state.id == old(
                self,
            ).nodes@[k].pod.state.id && self.nodes@[k].pod.state.geom_wf() by {}
            lemma_tree_wf_same_skeleton(old(self).nodes@, self.nodes@);
        }
        EventCtx {
            global,
            widget_state: st,
            notifications: Vec::new(),
            is_handled: false,
            is_root: i == 0,
            request_pan_to_child: None,
        }
    }

    /// Put the queues of a finished pass back into the window.
    fn restore_queues(&mut self, g: GlobalPassCtx)
        ensures
            *final(self) == (WindowRoot {
                command_queue: final(self).command_queue,
                action_queue: final(self).action_queue,
                timers: final(self).timers,
                next_timer_id: g.next_timer_id,
                warnings: final(self).warnings,
                ..*old(self)
            }),
            final(self).command_queue@ == g.command_queue@,
            final(self).action_queue@ == g.action_queue@,
            final(self).timers@ == g.timers@,
            final(self).warnings@ == g.warnings@,
    {
        let GlobalPassCtx { command_queue, action_queue, timers, next_timer_id, warnings, .. } = g;
        self.command_queue = command_queue;
        self.action_queue = action_queue;
        self.timers = timers;
        self.next_timer_id = next_timer_id;
        self.warnings = warnings;
    }

    /// Write `st` into the node at `i`, touching nothing else.
    fn set_widget_state(&mut self, i: usize, st: WidgetState)
        requires
            i < old(self).nodes@.len(),
        ensures
            *final(self) == (WindowRoot { nodes: final(self).nodes, ..*old(self) }),
            final(self).nodes@.len() == old(self).nodes@.len(),
            forall|j: int|
                0 <= j < old(self).nodes@.len() && j != i ==> final(self).nodes@[j] == old(
                    self,
                ).nodes@[j],
            final(self).nodes@[i as int].pod.state == st,
            final(self).nodes@[i as int].depth == old(self).nodes@[i as int].depth,
            final(self).nodes@[i as int].accepts_focus == old(self).nodes@[i
                as int].accepts_focus,
    {
        let mut st = st;
        core::mem::swap(&mut self.nodes[i].pod.state, &mut st);
    }

    /// Check the widget at `i` back in after event handling: the context's
    /// widget state becomes the node's state, the widget's dirty
    /// bookkeeping is merged into every ancestor, and the queues come back
    /// to the window. The notifications the widget submitted are returned
    /// for the caller to route.
    #[verifier::spinoff_prover]
    #[verifier::rlimit(100)]
    pub fn event_end(&mut self, i: usize, ctx: EventCtx) -> (notes: Vec<Notification>)
        requires
            old(self).wf(),
            i < old(self).nodes@.len(),
            ctx.widget_state.geom_wf(),
            ctx.widget_state.id == old(self).nodes@[i as int].pod.state.id,
            ctx.global.timers_wf(),
        ensures
            final(self).window_id == old(self).window_id,
            final(self).handle == old(self).handle,
            final(self).focus == old(self).focus,
            final(self).focus_chain@ == old(self).focus_chain@,
            final(self).command_queue@ == ctx.global.command_queue@,
            final(self).action_queue@ == ctx.global.action_queue@,
            final(self).timers@ == ctx.global.timers@,
            final(self).next_timer_id == ctx.global.next_timer_id,
            final(self).warnings@ == ctx.global.warnings@,
            notes@ == ctx.notifications@,
            final(self).nodes@.len() == old(self).nodes@.len(),
            final(self).nodes@[i as int].pod.state == ctx.widget_state,
            final(self).nodes@[i as int].depth == old(self).nodes@[i as int].depth,
            final(self).nodes@[i as int].accepts_focus == old(self).nodes@[i
                as int].accepts_focus,
            forall|j: int|
                0 <= j < old(self).nodes@.len() && !(in_subtree(old(self).nodes@, j, i as int)
                    && j != i) && j != i ==> final(self).nodes@[j] == old(self).nodes@[j],
            forall|j: int|
                0 <= j < old(self).nodes@.len() && in_subtree(old(self).nodes@, j, i as int)
                    && j != i ==> spec_absorbs_flags(
                    (#[trigger] final(self).nodes@[j]).pod.state,
                    ctx.widget_state,
                ),
    {
        let EventCtx { global, widget_state, notifications, .. } = ctx;
        self.restore_queues(global);
        self.set_widget_state(i, widget_state);
        proof {
            lemma_in_subtree_same_depths(self.nodes@, old(self).nodes@, i as int);
            reveal(spec_processed);
            assert forall|k: int| 0 <= k < self.nodes@.len() implies (#[trigger] self.nodes@[k]).depth
                == old(self).nodes@[k].depth && self.nodes@[k].pod.state.id == old(
                self,
            ).nodes@[k].pod.state.id && self.nodes@[k].pod.state.geom_wf() by {}
            lemma_tree_wf_same_skeleton(old(self).nodes@, self.nodes@);
        }
        self.merge_to_ancestors(i);
        notifications
    }

    /// Drain the pending commands, in submission order.
    pub fn take_commands(&mut self) -> (r: Vec<Command>)
        ensures
            r@ == old(self).command_queue@,
            *final(self) == (WindowRoot {
                command_queue: final(self).command_queue,
                ..*old(self)
            }),
            final(self).command_queue@ == Seq::<Command>::empty(),
    {
        let mut cq: Vec<Command> = Vec::new();
        core::mem::swap(&mut self.command_queue, &mut cq);
        cq
    }

    /// Drain the pending actions, in submission order.
    pub fn take_actions(&mut self) -> (r: Vec<ActionEntry>)
        ensures
            r@ == old(self).action_queue@,
            *final(self) == (WindowRoot {
                action_queue: final(self).action_queue,
                ..*old(self)
            }),
            final(self).action_queue@ == Seq::<ActionEntry>::empty(),
    {
        let mut aq: Vec<ActionEntry> = Vec::new();
        core::mem::swap(&mut self.action_queue, &mut aq);
        aq
    }

    /// Drain the logged warnings, in order.
    pub fn take_warnings(&mut self) -> (r: Vec<Warning>)
        ensures
            r@ == old(self).warnings@,
            *final(self) == (WindowRoot { warnings: final(self).warnings, ..*old(self) }),
            final(self).warnings@ == Seq::<Warning>::empty(),
    {
        let mut wr: Vec<Warning> = Vec::new();
        core::mem::swap(&mut self.warnings, &mut wr);
        wr
    }
}

} // verus!
