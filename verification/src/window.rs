//! The window-level driver: the widget tree of one window, the focus
//! manager, and the bookkeeping that runs when a pass ends.
//!
//! The tree is stored flat, in depth-first traversal order, each node
//! carrying its depth: the root sits at index 0 with depth 0, and the
//! subtree of a node is the contiguous run of deeper nodes that follows
//! it. The driver hands out an [`EventCtx`] for one widget at a time
//! ([`WindowRoot::event_ctx`]), absorbs it back
//! ([`WindowRoot::event_end`]) — merging the widget's dirty bookkeeping
//! into every ancestor — and, once a pass is over, runs the epilogue
//! ([`WindowRoot::post_event_pass`]): pending disabled changes take
//! effect, the collected focus request is resolved (last request in
//! traversal order wins), the focus chain is rebuilt, and the focus
//! pointer is validated against the tree.

use vstd::prelude::*;

use crate::command::{ActionEntry, Command, Notification, WindowId};
use crate::contexts::{EventCtx, GlobalPassCtx, TimerBinding, Warning, WindowHandle};
use crate::focus::{resolve_focus_change, spec_resolve_focus};
use crate::widget::{FocusChange, WidgetId, WidgetPod, WidgetState};

verus! {

/// One widget of the window's tree: its pod, its depth in the tree, and
/// whether it registers for focus when the focus chain is rebuilt.
pub struct WidgetNode {
    pub pod: WidgetPod,
    /// Depth in the tree: the root is 0, a child one more than its parent.
    pub depth: usize,
    /// Whether this widget registers itself during a focus-chain build.
    pub accepts_focus: bool,
}

/// The widget tree of one window together with the window's persistent
/// pass bookkeeping: the authoritative focus pointer, the focus chain,
/// and the queues that survive from one pass to the next.
pub struct WindowRoot {
    pub window_id: WindowId,
    pub handle: WindowHandle,
    /// The single authoritative focused widget of this window.
    pub focus: Option<WidgetId>,
    /// The ordered list of widgets eligible for sequential focus travel,
    /// as of the most recent rebuild.
    pub focus_chain: Vec<WidgetId>,
    /// The widgets, in depth-first traversal order.
    pub nodes: Vec<WidgetNode>,
    /// Commands queued and not yet drained, in submission order.
    pub command_queue: Vec<Command>,
    /// Actions queued and not yet drained, in submission order.
    pub action_queue: Vec<ActionEntry>,
    /// Timer registrations routed back by token.
    pub timers: Vec<TimerBinding>,
    /// The token the next timer request receives.
    pub next_timer_id: u64,
    /// Warnings logged and not yet drained, in order.
    pub warnings: Vec<Warning>,
}

/// Whether `a` is an ancestor of `d` or `d` itself: every node strictly
/// between them in traversal order lies deeper than `a`, so `d` is inside
/// the contiguous run that forms `a`'s subtree.
pub open spec fn in_subtree(s: Seq<WidgetNode>, a: int, d: int) -> bool {
    &&& 0 <= a <= d < s.len()
    &&& forall|k: int| a < k <= d ==> (#[trigger] s[k]).depth > s[a].depth
}

/// Whether the widget at `i` is disabled: some node of which it is a
/// subtree member (itself included) is explicitly disabled.
pub open spec fn disabled_in(s: Seq<WidgetNode>, i: int) -> bool {
    exists|a: int| in_subtree(s, a, i) && (#[trigger] s[a]).pod.state.is_explicitly_disabled
}

/// The index holding widget `id`, or `-1` when the id is not in the tree.
pub open spec fn id_index(s: Seq<WidgetNode>, id: WidgetId) -> int
    decreases s.len(),
{
    if s.len() == 0 {
        -1
    } else if s[0].pod.state.id == id {
        0
    } else {
        let rest = id_index(s.drop_first(), id);
        if rest == -1 {
            -1
        } else {
            rest + 1
        }
    }
}

/// `id_index` answers an in-range index holding `id`, or `-1` when no node
/// holds it.
pub proof fn lemma_id_index(s: Seq<WidgetNode>, id: WidgetId)
    ensures
        id_index(s, id) == -1 ==> forall|k: int|
            0 <= k < s.len() ==> (#[trigger] s[k]).pod.state.id != id,
        id_index(s, id) != -1 ==> 0 <= id_index(s, id) < s.len() && s[id_index(
            s,
            id,
        )].pod.state.id == id,
    decreases s.len(),
{
    if s.len() > 0 && s[0].pod.state.id != id {
        lemma_id_index(s.drop_first(), id);
        let rest = id_index(s.drop_first(), id);
        if rest == -1 {
            assert forall|k: int| 0 <= k < s.len() implies (#[trigger] s[k]).pod.state.id
                != id by {
                if k > 0 {
                    assert(s.drop_first()[k - 1] == s[k]);
                }
            }
        } else {
            assert(s.drop_first()[rest] == s[rest + 1]);
        }
    }
}

/// The focus chain a rebuild produces over `s`: the ids of the widgets
/// that register for focus, in traversal order, excluding every widget
/// under a disabled ancestor (or itself disabled).
#[verifier::opaque]
pub open spec fn spec_focus_chain(s: Seq<WidgetNode>) -> Seq<WidgetId>
    decreases s.len(),
{
    if s.len() == 0 {
        Seq::<WidgetId>::empty()
    } else {
        let prefix = spec_focus_chain(s.drop_last());
        let i = s.len() - 1;
        if s[i].accepts_focus && !disabled_in(s, i) {
            prefix.push(s[i].pod.state.id)
        } else {
            prefix
        }
    }
}

/// The last focus request attached to any widget, in traversal order,
/// together with the index of the widget that made it.
pub open spec fn last_request(s: Seq<WidgetNode>) -> Option<(int, FocusChange)>
    decreases s.len(),
{
    if s.len() == 0 {
        None::<(int, FocusChange)>
    } else {
        match s[s.len() - 1].pod.state.request_focus {
            Some(rq) => Some(((s.len() - 1) as int, rq)),
            None => last_request(s.drop_last()),
        }
    }
}

/// Membership of an index below a bound is unaffected by what the
/// sequence holds beyond that bound.
pub proof fn lemma_disabled_in_prefix(s: Seq<WidgetNode>, t: Seq<WidgetNode>, i: int)
    requires
        0 <= i < s.len(),
        i < t.len(),
        forall|k: int| 0 <= k <= i ==> s[k] == t[k],
    ensures
        disabled_in(s, i) == disabled_in(t, i),
{
    assert forall|a: int| in_subtree(s, a, i) && (#[trigger] s[a]).pod.state.is_explicitly_disabled
        implies in_subtree(t, a, i) && t[a].pod.state.is_explicitly_disabled by {
        assert forall|k: int| a < k <= i implies (#[trigger] t[k]).depth > t[a].depth by {
            assert(s[k].depth > s[a].depth);
        }
    }
    assert forall|a: int| in_subtree(t, a, i) && (#[trigger] t[a]).pod.state.is_explicitly_disabled
        implies in_subtree(s, a, i) && s[a].pod.state.is_explicitly_disabled by {
        assert forall|k: int| a < k <= i implies (#[trigger] s[k]).depth > s[a].depth by {
            assert(t[k].depth > t[a].depth);
        }
    }
}

/// Subtree membership depends only on depths: two equally long sequences
/// with the same depths agree on it.
pub proof fn lemma_in_subtree_same_depths(s: Seq<WidgetNode>, t: Seq<WidgetNode>, i: int)
    requires
        s.len() == t.len(),
        forall|k: int| 0 <= k < s.len() ==> (#[trigger] s[k]).depth == t[k].depth,
    ensures
        forall|j: int| 0 <= j < s.len() ==> in_subtree(s, j, i) == in_subtree(t, j, i),
{
    assert forall|j: int| 0 <= j < s.len() implies in_subtree(s, j, i) == in_subtree(t, j, i) by {
        if in_subtree(s, j, i) {
            assert forall|k: int| j < k <= i implies (#[trigger] t[k]).depth > t[j].depth by {
                assert(s[k].depth > s[j].depth);
            }
        }
        if in_subtree(t, j, i) {
            assert forall|k: int| j < k <= i implies (#[trigger] s[k]).depth > s[j].depth by {
                assert(t[k].depth > t[j].depth);
            }
        }
    }
}

/// The depth at `i` is at most one more than the depth just before it.
pub open spec fn depth_step_ok(s: Seq<WidgetNode>, i: int) -> bool {
    s[i].depth <= s[i - 1].depth + 1
}

/// The flat tree is a well-formed depth-first encoding: the root is at
/// index 0 with depth 0, depths grow by at most one from a node to the
/// next, every non-root node has positive depth, ids are unique, and
/// every state's geometry is in bounds.
pub open spec fn tree_wf(s: Seq<WidgetNode>) -> bool {
    &&& s.len() > 0
    &&& s[0].depth == 0
    &&& forall|i: int| 1 <= i < s.len() ==> 1 <= (#[trigger] s[i]).depth <= i
    &&& forall|i: int| 1 <= i < s.len() ==> #[trigger] depth_step_ok(s, i)
    &&& forall|i: int, j: int|
        0 <= i < j < s.len() ==> (#[trigger] s[i]).pod.state.id != (
        #[trigger] s[j]).pod.state.id
    &&& forall|i: int| 0 <= i < s.len() ==> (#[trigger] s[i]).pod.state.geom_wf()
}

/// A tree stays well formed when every node keeps its depth, its id and
/// its geometry bounds.
pub proof fn lemma_tree_wf_same_skeleton(s: Seq<WidgetNode>, t: Seq<WidgetNode>)
    requires
        tree_wf(s),
        s.len() == t.len(),
        forall|k: int|
            0 <= k < s.len() ==> (#[trigger] t[k]).depth == s[k].depth && t[k].pod.state.id
                == s[k].pod.state.id && t[k].pod.state.geom_wf(),
    ensures
        tree_wf(t),
{
    assert forall|i: int| 1 <= i < t.len() implies #[trigger] depth_step_ok(t, i) by {
        assert(depth_step_ok(s, i));
    }
}

impl WindowRoot {
    /// The tree is well formed, and issued timer tokens are below the next
    /// one and pairwise distinct.
    pub open spec fn wf(self) -> bool {
        &&& tree_wf(self.nodes@)
        &&& forall|i: int|
            0 <= i < self.timers@.len() ==> (#[trigger] self.timers@[i]).token.0
                < self.next_timer_id
        &&& forall|i: int, j: int|
            0 <= i < j < self.timers@.len() ==> (#[trigger] self.timers@[i]).token != (
            #[trigger] self.timers@[j]).token
    }

    /// A window over a tree holding just the root widget.
    #[verifier::spinoff_prover]
    #[verifier::rlimit(100)]
    pub fn new(
        window_id: WindowId,
        handle: WindowHandle,
        root_id: WidgetId,
        accepts_focus: bool,
    ) -> (r: WindowRoot)
        ensures
            r.window_id == window_id,
            r.handle == handle,
            r.focus is None,
            r.focus_chain@ == Seq::<WidgetId>::empty(),
            r.nodes@.len() == 1,
            r.nodes@[0].pod.state.is_fresh(root_id),
            r.nodes@[0].depth == 0,
            r.nodes@[0].accepts_focus == accepts_focus,
            r.command_queue@ == Seq::<Command>::empty(),
            r.action_queue@ == Seq::<ActionEntry>::empty(),
            r.timers@ == Seq::<TimerBinding>::empty(),
            r.next_timer_id == 0,
            r.warnings@ == Seq::<Warning>::empty(),
            r.wf(),
    {
        let mut nodes: Vec<WidgetNode> = Vec::new();
        nodes.push(WidgetNode { pod: WidgetPod::new(root_id), depth: 0, accepts_focus });
        WindowRoot {
            window_id,
            handle,
            focus: None,
            focus_chain: Vec::new(),
            nodes,
            command_queue: Vec::new(),
            action_queue: Vec::new(),
            timers: Vec::new(),
            next_timer_id: 0,
            warnings: Vec::new(),
        }
    }

    /// How many widgets the tree holds.
    pub fn num_widgets(&self) -> (r: usize)
        ensures
            r == self.nodes@.len(),
    {
        self.nodes.len()
    }

    /// The id of the widget at traversal position `i`.
    pub fn widget_id_at(&self, i: usize) -> (r: WidgetId)
        requires
            i < self.nodes@.len(),
        ensures
            r == self.nodes@[i as int].pod.state.id,
    {
        self.nodes[i].pod.state.id
    }

    /// The bookkeeping state of the widget at traversal position `i`.
    pub fn widget_state_at(&self, i: usize) -> (r: &WidgetState)
        requires
            i < self.nodes@.len(),
        ensures
            *r == self.nodes@[i as int].pod.state,
    {
        &self.nodes[i].pod.state
    }

    /// Whether the widget at traversal position `i` registers for focus
    /// during a chain rebuild.
    pub fn accepts_focus_at(&self, i: usize) -> (r: bool)
        requires
            i < self.nodes@.len(),
        ensures
            r == self.nodes@[i as int].accepts_focus,
    {
        self.nodes[i].accepts_focus
    }

    /// The authoritative focused widget of this window, if any.
    pub fn focus(&self) -> (r: Option<WidgetId>)
        ensures
            r == self.focus,
    {
        self.focus
    }

    /// The focus chain as of the most recent rebuild.
    pub fn focus_chain(&self) -> (r: &Vec<WidgetId>)
        ensures
            r@ == self.focus_chain@,
    {
        &self.focus_chain
    }

    /// The traversal position of widget `id`, or `None` when the id is not
    /// in the tree. A background result for a widget this answers `None`
    /// for must be dropped.
    pub fn find_widget(&self, id: WidgetId) -> (r: Option<usize>)
        ensures
            r is None <==> id_index(self.nodes@, id) == -1,
            r matches Some(i) ==> i == id_index(self.nodes@, id) && self.nodes@[i
                as int].pod.state.id == id,
    {
        proof {
            lemma_id_index(self.nodes@, id);
        }
        let n = self.nodes.len();
        let mut i: usize = 0;
        while i < n
            invariant
                n == self.nodes@.len(),
                0 <= i <= n,
                forall|k: int| 0 <= k < i ==> (#[trigger] self.nodes@[k]).pod.state.id != id,
            decreases n - i,
        {
            if self.nodes[i].pod.state.id.0 == id.0 {
                proof {
                    lemma_id_index_prefix(self.nodes@, id, i as int);
                }
                return Some(i);
            }
            i = i + 1;
        }
        None
    }

    /// Whether widget `id` is (still) in the tree.
    pub fn has_widget(&self, id: WidgetId) -> (r: bool)
        ensures
            r == (id_index(self.nodes@, id) != -1),
    {
        match self.find_widget(id) {
            Some(_) => true,
            None => false,
        }
    }

    /// Whether the widget at `i` is disabled, explicitly or through any
    /// ancestor's explicit flag, judged from the flags as they stand now.
    pub fn is_disabled_at(&self, i: usize) -> (r: bool)
        requires
            i < self.nodes@.len(),
        ensures
            r == disabled_in(self.nodes@, i as int),
    {
        if self.nodes[i].pod.state.is_explicitly_disabled {
            proof {
                assert(in_subtree(self.nodes@, i as int, i as int));
            }
            return true;
        }
        let mut m: usize = self.nodes[i].depth;
        let mut a: usize = i;
        while a > 0
            invariant
                i < self.nodes@.len(),
                0 <= a <= i,
                // m is the least depth seen on [a, i], and it is attained
                forall|k: int| a <= k <= i ==> (#[trigger] self.nodes@[k]).depth >= m,
                exists|k: int| a <= k <= i && (#[trigger] self.nodes@[k]).depth == m,
                // no subtree ancestor found so far is explicitly disabled
                forall|b: int|
                    a <= b <= i && in_subtree(self.nodes@, b, i as int) ==> !(
                    #[trigger] self.nodes@[b]).pod.state.is_explicitly_disabled,
            decreases a,
        {
            a = a - 1;
            let d = self.nodes[a].depth;
            if d < m {
                // every node after `a` up to `i` is deeper, so `a` is an
                // ancestor of `i`
                proof {
                    assert forall|k: int| a < k <= i implies (#[trigger] self.nodes@[k]).depth
                        > self.nodes@[a as int].depth by {
                        assert(self.nodes@[k].depth >= m);
                    }
                    assert(in_subtree(self.nodes@, a as int, i as int));
                }
                if self.nodes[a].pod.state.is_explicitly_disabled {
                    return true;
                }
                m = d;
            } else {
                // the least depth on (a, i] is at most `d`, so some node
                // there is not deeper than `a`: not an ancestor
                proof {
                    let k0 = choose|k: int|
                        a + 1 <= k <= i && (#[trigger] self.nodes@[k]).depth == m;
                    assert(self.nodes@[k0].depth == m);
                    assert(!in_subtree(self.nodes@, a as int, i as int)) by {
                        if in_subtree(self.nodes@, a as int, i as int) {
                            assert(self.nodes@[k0].depth > self.nodes@[a as int].depth);
                        }
                    }
                }
            }
        }
        proof {
            assert forall|b: int| in_subtree(self.nodes@, b, i as int) implies !(
            #[trigger] self.nodes@[b]).pod.state.is_explicitly_disabled by {
                assert(0 <= b <= i);
            }
        }
        false
    }
}

/// When every position below `i` misses `id` and position `i` holds it,
/// the first occurrence is `i`.
pub proof fn lemma_id_index_prefix(s: Seq<WidgetNode>, id: WidgetId, i: int)
    requires
        0 <= i < s.len(),
        s[i].pod.state.id == id,
        forall|k: int| 0 <= k < i ==> (#[trigger] s[k]).pod.state.id != id,
    ensures
        id_index(s, id) == i,
    decreases i,
{
    if i > 0 {
        assert forall|k: int| 0 <= k < i - 1 implies (#[trigger] s.drop_first()[k]).pod.state.id
            != id by {
            assert(s.drop_first()[k] == s[k + 1]);
        }
        assert(s.drop_first()[i - 1] == s[i]);
        lemma_id_index_prefix(s.drop_first(), id, i - 1);
    }
}


/// `n` absorbed the invalidation flags of `c`: whatever work `c` requires,
/// `n` requires too.
#[verifier::opaque]
pub open spec fn spec_absorbs_flags(n: WidgetState, c: WidgetState) -> bool {
    &&& (c.needs_layout ==> n.needs_layout)
    &&& (c.needs_paint ==> n.needs_paint)
    &&& (c.request_anim ==> n.request_anim)
    &&& (c.children_changed ==> n.children_changed)
    &&& (c.update_focus_chain ==> n.update_focus_chain)
    &&& (c.has_focus ==> n.has_focus)
}


/// `n` is `o` after absorbing (directly or through descendants) the dirty
/// bookkeeping of a widget whose state is `leaf`: its invalidation flags
/// cover the leaf's and its own old ones, and identity, position and
/// geometry bounds are kept.
#[verifier::opaque]
pub open spec fn spec_processed(o: WidgetNode, n: WidgetNode, leaf: WidgetState) -> bool {
    &&& spec_absorbs_flags(n.pod.state, leaf)
    &&& spec_absorbs_flags(n.pod.state, o.pod.state)
    &&& n.depth == o.depth
    &&& n.accepts_focus == o.accepts_focus
    &&& n.pod.state.id == o.pod.state.id
    &&& (o.pod.state.geom_wf() ==> n.pod.state.geom_wf())
}

} // verus!
