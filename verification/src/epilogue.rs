//! The end-of-pass bookkeeping of a window: pending disabled changes take
//! effect, the focus request collected during the pass is resolved, the
//! focus chain is rebuilt, and the focus pointer is validated against the
//! tree. [`WindowRoot::post_event_pass`] runs the four steps in that
//! order.

use vstd::prelude::*;

use crate::contexts::Warning;
use crate::focus::{resolve_focus_change, spec_resolve_focus};
use crate::widget::{FocusChange, WidgetId, WidgetPod, WidgetState};
use crate::window::{
    disabled_in, id_index, in_subtree, last_request, lemma_disabled_in_prefix, lemma_id_index,
    lemma_in_subtree_same_depths, lemma_tree_wf_same_skeleton, spec_focus_chain, tree_wf,
    WidgetNode, WindowRoot,
};

verus! {

/// Whether some strict ancestor of the widget at `i` is explicitly
/// disabled.
pub open spec fn strict_ancestor_disabled_in(s: Seq<WidgetNode>, i: int) -> bool {
    exists|a: int|
        in_subtree(s, a, i) && a != i && (#[trigger] s[a]).pod.state.is_explicitly_disabled
}

/// `n` is `o` with the pending explicit disabled flag applied and the
/// inherited disabled status set to `b`.
#[verifier::opaque]
pub open spec fn node_disabled_updated(o: WidgetNode, n: WidgetNode, b: bool) -> bool {
    n == (WidgetNode {
        pod: WidgetPod {
            state: WidgetState {
                is_explicitly_disabled: o.pod.state.is_explicitly_disabled_new,
                ancestor_disabled: b,
                ..o.pod.state
            },
        },
        ..o
    })
}

/// `n` is `o` with its pending focus request cleared.
#[verifier::opaque]
pub open spec fn node_request_cleared(o: WidgetNode, n: WidgetNode) -> bool {
    n == (WidgetNode {
        pod: WidgetPod { state: WidgetState { request_focus: None, ..o.pod.state } },
        ..o
    })
}

/// `n` is `o` after a focus-chain rebuild visited it: its chain
/// contribution is its own id when it registers for focus and empty
/// otherwise, and the pending children-changed and chain-rebuild flags
/// are acknowledged.
#[verifier::opaque]
pub open spec fn node_rebuilt(o: WidgetNode, n: WidgetNode) -> bool {
    &&& n == (WidgetNode {
        pod: WidgetPod {
            state: WidgetState {
                children_changed: false,
                update_focus_chain: false,
                focus_chain: n.pod.state.focus_chain,
                ..o.pod.state
            },
        },
        ..o
    })
    &&& (o.accepts_focus ==> n.pod.state.focus_chain@ == Seq::<WidgetId>::empty().push(
        o.pod.state.id,
    ))
    &&& (!o.accepts_focus ==> n.pod.state.focus_chain@ == Seq::<WidgetId>::empty())
}

/// `n` is `o` with its tree-focus flag set to `b`.
#[verifier::opaque]
pub open spec fn node_focus_flag(o: WidgetNode, n: WidgetNode, b: bool) -> bool {
    n == (WidgetNode {
        pod: WidgetPod { state: WidgetState { has_focus: b, ..o.pod.state } },
        ..o
    })
}

/// `n` is `o` with its focus-chain contribution replaced by `c` and its
/// pending children-changed and chain-rebuild flags acknowledged.
#[verifier::opaque]
pub open spec fn node_chain_written(o: WidgetNode, n: WidgetNode, c: Seq<WidgetId>) -> bool {
    &&& n == (WidgetNode {
        pod: WidgetPod {
            state: WidgetState {
                children_changed: false,
                update_focus_chain: false,
                focus_chain: n.pod.state.focus_chain,
                ..o.pod.state
            },
        },
        ..o
    })
    &&& n.pod.state.focus_chain@ == c
}

/// `n` is `o` with the pending explicit disabled flag applied.
#[verifier::opaque]
pub open spec fn node_explicit_applied(o: WidgetNode, n: WidgetNode) -> bool {
    n == (WidgetNode {
        pod: WidgetPod {
            state: WidgetState {
                is_explicitly_disabled: o.pod.state.is_explicitly_disabled_new,
                ..o.pod.state
            },
        },
        ..o
    })
}

/// `n` is `o` with the inherited disabled status set to `b`.
#[verifier::opaque]
pub open spec fn node_inherited_set(o: WidgetNode, n: WidgetNode, b: bool) -> bool {
    n == (WidgetNode {
        pod: WidgetPod { state: WidgetState { ancestor_disabled: b, ..o.pod.state } },
        ..o
    })
}

/// `flags` records, widget by widget, the disabled judgement over `s`.
#[verifier::opaque]
pub open spec fn disabled_flags_ok(flags: Seq<bool>, s: Seq<WidgetNode>) -> bool {
    &&& flags.len() == s.len()
    &&& forall|k: int| 0 <= k < s.len() ==> flags[k] == disabled_in(s, k)
}

/// Whether some strict ancestor of the widget at `i` is explicitly
/// disabled, judged from the nodes as they stand.
fn strict_ancestor_disabled(nodes: &Vec<WidgetNode>, i: usize) -> (r: bool)
    requires
        i < nodes@.len(),
    ensures
        r == strict_ancestor_disabled_in(nodes@, i as int),
{
    let mut m: usize = nodes[i].depth;
    let mut a: usize = i;
    while a > 0
        invariant
            i < nodes@.len(),
            0 <= a <= i,
            forall|k: int| a <= k <= i ==> (#[trigger] nodes@[k]).depth >= m,
            exists|k: int| a <= k <= i && (#[trigger] nodes@[k]).depth == m,
            forall|b: int|
                a <= b <= i && in_subtree(nodes@, b, i as int) && b != i ==> !(
                #[trigger] nodes@[b]).pod.state.is_explicitly_disabled,
        decreases a,
    {
        a = a - 1;
        let d = nodes[a].depth;
        if d < m {
            proof {
                assert forall|k: int| a < k <= i implies (#[trigger] nodes@[k]).depth
                    > nodes@[a as int].depth by {
                    assert(nodes@[k].depth >= m);
                }
                assert(in_subtree(nodes@, a as int, i as int));
            }
            if nodes[a].pod.state.is_explicitly_disabled {
                return true;
            }
            m = d;
        } else {
            proof {
                let k0 = choose|k: int| a + 1 <= k <= i && (#[trigger] nodes@[k]).depth == m;
                assert(nodes@[k0].depth == m);
                assert(!in_subtree(nodes@, a as int, i as int)) by {
                    if in_subtree(nodes@, a as int, i as int) {
                        assert(nodes@[k0].depth > nodes@[a as int].depth);
                    }
                }
            }
        }
    }
    proof {
        assert forall|b: int| in_subtree(nodes@, b, i as int) && b != i implies !(
        #[trigger] nodes@[b]).pod.state.is_explicitly_disabled by {
            assert(0 <= b <= i);
        }
    }
    false
}

/// Whether the widget at `d` lies in the subtree of the widget at `a`,
/// judged from the nodes as they stand.
fn subtree_contains(nodes: &Vec<WidgetNode>, a: usize, d: usize) -> (r: bool)
    requires
        a < nodes@.len(),
        d < nodes@.len(),
    ensures
        r == in_subtree(nodes@, a as int, d as int),
{
    if d < a {
        return false;
    }
    let da = nodes[a].depth;
    let mut k: usize = a;
    while k < d
        invariant
            a <= k <= d < nodes@.len(),
            da == nodes@[a as int].depth,
            forall|m: int| a < m <= k ==> (#[trigger] nodes@[m]).depth > da,
        decreases d - k,
    {
        k = k + 1;
        if nodes[k].depth <= da {
            return false;
        }
    }
    true
}

impl WindowRoot {
    /// Let the explicit disabled flag requested during the pass take
    /// effect on every widget.
    #[verifier::spinoff_prover]
    #[verifier::rlimit(100)]
    fn apply_explicit_flags(&mut self)
        requires
            old(self).wf(),
        ensures
            *final(self) == (WindowRoot { nodes: final(self).nodes, ..*old(self) }),
            final(self).nodes@.len() == old(self).nodes@.len(),
            forall|k: int|
                0 <= k < old(self).nodes@.len() ==> node_explicit_applied(
                    old(self).nodes@[k],
                    (#[trigger] final(self).nodes@[k]),
                ),
            final(self).wf(),
    {
        let ghost s0 = self.nodes@;
        let n = self.nodes.len();
        let mut j: usize = 0;
        while j < n
            invariant
                n == self.nodes@.len(),
                self.nodes@.len() == s0.len(),
                0 <= j <= n,
                *self == (WindowRoot { nodes: self.nodes, ..*old(self) }),
                forall|k: int| j <= k < n ==> (#[trigger] self.nodes@[k]) == s0[k],
                forall|k: int|
                    0 <= k < j ==> node_explicit_applied(s0[k], (#[trigger] self.nodes@[k])),
            decreases n - j,
        {
            let v = self.nodes[j].pod.state.is_explicitly_disabled_new;
            self.nodes[j].pod.state.is_explicitly_disabled = v;
            proof {
                assert(node_explicit_applied(s0[j as int], self.nodes@[j as int])) by {
                    reveal(node_explicit_applied);
                }
            }
            j = j + 1;
        }
        proof {
            reveal(node_explicit_applied);
            assert forall|k: int| 0 <= k < s0.len() implies (#[trigger] self.nodes@[k]).depth
                == s0[k].depth && self.nodes@[k].pod.state.id == s0[k].pod.state.id
                && self.nodes@[k].pod.state.geom_wf() by {}
            lemma_tree_wf_same_skeleton(s0, self.nodes@);
        }
    }

    /// Write the given inherited disabled statuses, one per widget.
    #[verifier::spinoff_prover]
    #[verifier::rlimit(100)]
    fn write_inherited(&mut self, inherited: Vec<bool>)
        requires
            old(self).wf(),
            inherited@.len() == old(self).nodes@.len(),
        ensures
            *final(self) == (WindowRoot { nodes: final(self).nodes, ..*old(self) }),
            final(self).nodes@.len() == old(self).nodes@.len(),
            forall|k: int|
                0 <= k < old(self).nodes@.len() ==> node_inherited_set(
                    old(self).nodes@[k],
                    (#[trigger] final(self).nodes@[k]),
                    inherited@[k],
                ),
            final(self).wf(),
    {
        let ghost s1 = self.nodes@;
        let n = self.nodes.len();
        let mut j: usize = 0;
        while j < n
            invariant
                n == self.nodes@.len(),
                self.nodes@.len() == s1.len(),
                0 <= j <= n,
                *self == (WindowRoot { nodes: self.nodes, ..*old(self) }),
                inherited@.len() == n,
                forall|k: int| j <= k < n ==> (#[trigger] self.nodes@[k]) == s1[k],
                forall|k: int|
                    0 <= k < j ==> node_inherited_set(
                        s1[k],
                        (#[trigger] self.nodes@[k]),
                        inherited@[k],
                    ),
            decreases n - j,
        {
            let b = inherited[j];
            self.nodes[j].pod.state.ancestor_disabled = b;
            proof {
                let ghost bj = inherited@[j as int];
                assert(node_inherited_set(s1[j as int], self.nodes@[j as int], bj)) by {
                    reveal(node_inherited_set);
                }
            }
            j = j + 1;
        }
        proof {
            reveal(node_inherited_set);
            assert forall|k: int| 0 <= k < s1.len() implies (#[trigger] self.nodes@[k]).depth
                == s1[k].depth && self.nodes@[k].pod.state.id == s1[k].pod.state.id
                && self.nodes@[k].pod.state.geom_wf() by {}
            lemma_tree_wf_same_skeleton(s1, self.nodes@);
        }
    }

    /// Let the explicit disabled flags requested during the pass take
    /// effect, and recompute every widget's inherited disabled status
    /// top-down, so it is never read stale.
    #[verifier::spinoff_prover]
    #[verifier::rlimit(100)]
    pub fn apply_disabled(&mut self)
        requires
            old(self).wf(),
        ensures
            *final(self) == (WindowRoot { nodes: final(self).nodes, ..*old(self) }),
            final(self).nodes@.len() == old(self).nodes@.len(),
            forall|j: int|
                0 <= j < old(self).nodes@.len() ==> node_disabled_updated(
                    old(self).nodes@[j],
                    (#[trigger] final(self).nodes@[j]),
                    strict_ancestor_disabled_in(final(self).nodes@, j),
                ),
            final(self).wf(),
    {
        let ghost s0 = self.nodes@;
        self.apply_explicit_flags();
        let ghost s1 = self.nodes@;
        // compute the inherited statuses against the updated explicit
        // flags, and only afterwards write them
        let n = self.nodes.len();
        let mut inherited: Vec<bool> = Vec::new();
        let mut j: usize = 0;
        while j < n
            invariant
                n == self.nodes@.len(),
                0 <= j <= n,
                s1 == self.nodes@,
                inherited@.len() == j,
                forall|k: int| 0 <= k < j ==> inherited@[k] == strict_ancestor_disabled_in(s1, k),
            decreases n - j,
        {
            let b = strict_ancestor_disabled(&self.nodes, j);
            inherited.push(b);
            j = j + 1;
        }
        self.write_inherited(inherited);
        proof {
            let s2 = self.nodes@;
            reveal(node_explicit_applied);
            reveal(node_inherited_set);
            reveal(node_disabled_updated);
            assert forall|k: int| 0 <= k < s2.len() implies (#[trigger] s2[k]).depth == s1[k].depth
                && s2[k].pod.state.is_explicitly_disabled
                == s1[k].pod.state.is_explicitly_disabled by {}
            assert forall|k: int| 0 <= k < s2.len() implies strict_ancestor_disabled_in(s2, k)
                == strict_ancestor_disabled_in(s1, k) by {
                lemma_in_subtree_same_depths(s1, s2, k);
                if strict_ancestor_disabled_in(s1, k) {
                    let a = choose|a: int|
                        in_subtree(s1, a, k) && a != k && (
                        #[trigger] s1[a]).pod.state.is_explicitly_disabled;
                    assert(in_subtree(s2, a, k) && s2[a].pod.state.is_explicitly_disabled);
                }
                if strict_ancestor_disabled_in(s2, k) {
                    let a = choose|a: int|
                        in_subtree(s2, a, k) && a != k && (
                        #[trigger] s2[a]).pod.state.is_explicitly_disabled;
                    assert(in_subtree(s1, a, k) && s1[a].pod.state.is_explicitly_disabled);
                }
            }
        }
    }

    /// Clear every widget's pending focus request, returning the last one
    /// in traversal order together with the index of the widget that made
    /// it.
    #[verifier::spinoff_prover]
    #[verifier::rlimit(100)]
    fn take_requests(&mut self) -> (winner: Option<(usize, FocusChange)>)
        requires
            old(self).wf(),
        ensures
            *final(self) == (WindowRoot { nodes: final(self).nodes, ..*old(self) }),
            final(self).nodes@.len() == old(self).nodes@.len(),
            forall|j: int|
                0 <= j < old(self).nodes@.len() ==> node_request_cleared(
                    old(self).nodes@[j],
                    (#[trigger] final(self).nodes@[j]),
                ),
            match last_request(old(self).nodes@) {
                None => winner is None,
                Some(req) => winner matches Some(w) && w.0 as int == req.0 && w.1 == req.1
                    && req.0 < old(self).nodes@.len(),
            },
            final(self).wf(),
    {
        let ghost s0 = self.nodes@;
        let n = self.nodes.len();
        let mut winner: Option<(usize, FocusChange)> = None;
        let mut j: usize = 0;
        proof {
            assert(s0.take(0) =~= Seq::<WidgetNode>::empty());
        }
        while j < n
            invariant
                n == self.nodes@.len(),
                self.nodes@.len() == s0.len(),
                s0 == old(self).nodes@,
                0 <= j <= n,
                *self == (WindowRoot { nodes: self.nodes, ..*old(self) }),
                forall|k: int| j <= k < n ==> (#[trigger] self.nodes@[k]) == s0[k],
                forall|k: int|
                    0 <= k < j ==> node_request_cleared(s0[k], (#[trigger] self.nodes@[k])),
                match last_request(s0.take(j as int)) {
                    None => winner is None,
                    Some(req) => winner matches Some(w) && w.0 as int == req.0 && w.1 == req.1
                        && req.0 < j,
                },
            decreases n - j,
        {
            let r = self.nodes[j].pod.state.request_focus;
            match r {
                Some(rq) => {
                    winner = Some((j, rq));
                },
                None => {},
            }
            self.nodes[j].pod.state.request_focus = None;
            proof {
                assert(node_request_cleared(s0[j as int], self.nodes@[j as int])) by {
                    reveal(node_request_cleared);
                }
                assert(s0.take(j + 1).drop_last() =~= s0.take(j as int));
                assert(s0.take(j + 1).last() == s0[j as int]);
            }
            j = j + 1;
        }
        proof {
            reveal(node_request_cleared);
            assert(s0.take(n as int) =~= s0);
            assert forall|k: int| 0 <= k < s0.len() implies (#[trigger] self.nodes@[k]).depth
                == s0[k].depth && self.nodes@[k].pod.state.id == s0[k].pod.state.id
                && self.nodes@[k].pod.state.geom_wf() by {}
            lemma_tree_wf_same_skeleton(s0, self.nodes@);
        }
        winner
    }

    /// Collect the focus requests attached during the pass — the last one
    /// in traversal order wins — clear them all, and resolve the winner
    /// into the new focus pointer. A rejected request (`Resign`, `Next` or
    /// `Previous` from a widget without tree focus) leaves the pointer
    /// unchanged and logs a warning.
    #[verifier::spinoff_prover]
    #[verifier::rlimit(100)]
    pub fn resolve_pending_focus(&mut self)
        requires
            old(self).wf(),
        ensures
            final(self).nodes@.len() == old(self).nodes@.len(),
            forall|j: int|
                0 <= j < old(self).nodes@.len() ==> node_request_cleared(
                    old(self).nodes@[j],
                    (#[trigger] final(self).nodes@[j]),
                ),
            *final(self) == (WindowRoot {
                nodes: final(self).nodes,
                focus: final(self).focus,
                warnings: final(self).warnings,
                ..*old(self)
            }),
            match last_request(old(self).nodes@) {
                None => final(self).focus == old(self).focus && final(self).warnings@ == old(
                    self,
                ).warnings@,
                Some(req) => {
                    let r = spec_resolve_focus(
                        req.1,
                        old(self).nodes@[req.0].pod.state.has_focus,
                        old(self).focus,
                        old(self).focus_chain@,
                    );
                    &&& final(self).focus == r.0
                    &&& (r.1 ==> final(self).warnings@ == old(self).warnings@.push(
                        Warning::FocusChangeRejected,
                    ))
                    &&& (!r.1 ==> final(self).warnings@ == old(self).warnings@)
                },
            },
            final(self).wf(),
    {
        let winner = self.take_requests();
        match winner {
            None => {},
            Some((idx, rq)) => {
                let has = self.nodes[idx].pod.state.has_focus;
                proof {
                    assert(has == old(self).nodes@[idx as int].pod.state.has_focus) by {
                        reveal(node_request_cleared);
                    }
                }
                let (new_focus, rejected) = resolve_focus_change(
                    rq,
                    has,
                    self.focus,
                    &self.focus_chain,
                );
                self.focus = new_focus;
                if rejected {
                    self.warnings.push(Warning::FocusChangeRejected);
                }
            },
        }
    }

    /// Write a focus-chain contribution into the widget at `j` and
    /// acknowledge its pending children-changed and chain-rebuild flags,
    /// touching nothing else.
    #[verifier::spinoff_prover]
    #[verifier::rlimit(100)]
    fn set_rebuilt(&mut self, j: usize, contribution: Vec<WidgetId>)
        requires
            j < old(self).nodes@.len(),
        ensures
            *final(self) == (WindowRoot { nodes: final(self).nodes, ..*old(self) }),
            final(self).nodes@.len() == old(self).nodes@.len(),
            forall|k: int|
                0 <= k < old(self).nodes@.len() && k != j ==> final(self).nodes@[k] == old(
                    self,
                ).nodes@[k],
            node_chain_written(
                old(self).nodes@[j as int],
                final(self).nodes@[j as int],
                contribution@,
            ),
    {
        let ghost given = contribution@;
        let mut contribution = contribution;
        core::mem::swap(&mut self.nodes[j].pod.state.focus_chain, &mut contribution);
        self.nodes[j].pod.state.children_changed = false;
        self.nodes[j].pod.state.update_focus_chain = false;
        proof {
            assert(node_chain_written(old(self).nodes@[j as int], self.nodes@[j as int], given))
                by {
                reveal(node_chain_written);
            }
        }
    }

    /// The disabled status of every widget, judged from the flags as they
    /// stand now.
    fn compute_disabled_flags(&self) -> (r: Vec<bool>)
        ensures
            r@.len() == self.nodes@.len(),
            disabled_flags_ok(r@, self.nodes@),
    {
        let n = self.nodes.len();
        let mut flags: Vec<bool> = Vec::new();
        let mut j: usize = 0;
        while j < n
            invariant
                n == self.nodes@.len(),
                0 <= j <= n,
                flags@.len() == j,
                forall|k: int| 0 <= k < j ==> flags@[k] == disabled_in(self.nodes@, k),
            decreases n - j,
        {
            let b = self.is_disabled_at(j);
            flags.push(b);
            j = j + 1;
        }
        proof {
            assert(disabled_flags_ok(flags@, self.nodes@)) by {
                reveal(disabled_flags_ok);
            }
        }
        flags
    }

    /// Rebuild the focus chain: walk the tree in traversal order, let every
    /// widget that accepts focus register itself, and keep exactly the
    /// registered ids that are not under a disabled ancestor (nor disabled
    /// themselves). The rebuild also acknowledges the pending
    /// children-changed and chain-rebuild flags everywhere.
    ///
    /// The resulting chain equals the ordered list of ids registered
    /// during this rebuild, excluding the ids of disabled subtrees.
    #[verifier::spinoff_prover]
    #[verifier::rlimit(100)]
    pub fn rebuild_focus_chain(&mut self)
        requires
            old(self).wf(),
        ensures
            final(self).focus_chain@ == spec_focus_chain(old(self).nodes@),
            final(self).nodes@.len() == old(self).nodes@.len(),
            forall|j: int|
                0 <= j < old(self).nodes@.len() ==> node_rebuilt(
                    old(self).nodes@[j],
                    (#[trigger] final(self).nodes@[j]),
                ),
            *final(self) == (WindowRoot {
                nodes: final(self).nodes,
                focus_chain: final(self).focus_chain,
                ..*old(self)
            }),
            final(self).wf(),
    {
        let ghost s0 = self.nodes@;
        // judge every widget's disabled status up front; the walk below
        // does not touch the flags that judgement reads
        let dis_flags = self.compute_disabled_flags();
        let n = self.nodes.len();
        let mut chain: Vec<WidgetId> = Vec::new();
        let mut j: usize = 0;
        proof {
            assert(s0.take(0) =~= Seq::<WidgetNode>::empty());
            assert(chain@ == spec_focus_chain(s0.take(0))) by {
                reveal(spec_focus_chain);
            }
        }
        while j < n
            invariant
                n == self.nodes@.len(),
                self.nodes@.len() == s0.len(),
                s0 == old(self).nodes@,
                0 <= j <= n,
                *self == (WindowRoot { nodes: self.nodes, ..*old(self) }),
                dis_flags@.len() == n,
                disabled_flags_ok(dis_flags@, s0),
                forall|k: int| j <= k < n ==> (#[trigger] self.nodes@[k]) == s0[k],
                forall|k: int| 0 <= k < j ==> node_rebuilt(s0[k], (#[trigger] self.nodes@[k])),
                chain@ == spec_focus_chain(s0.take(j as int)),
            decreases n - j,
        {
            let dis = dis_flags[j];
            proof {
                assert(dis == disabled_in(s0, j as int)) by {
                    reveal(disabled_flags_ok);
                }
            }
            let accepts = self.nodes[j].accepts_focus;
            let id = self.nodes[j].pod.state.id;
            let mut contribution: Vec<WidgetId> = Vec::new();
            if accepts {
                // what register_for_focus contributes for this widget
                contribution.push(id);
                if !dis {
                    chain.push(id);
                }
            }
            let ghost contribution_view = contribution@;
            self.set_rebuilt(j, contribution);
            proof {
                assert(node_rebuilt(s0[j as int], self.nodes@[j as int])) by {
                    reveal(node_rebuilt);
                    reveal(node_chain_written);
                }
                assert(s0.take(j + 1).drop_last() =~= s0.take(j as int));
                assert(s0.take(j + 1).last() == s0[j as int]);
                lemma_disabled_in_prefix(s0.take(j + 1), s0, j as int);
                assert(chain@ == spec_focus_chain(s0.take(j + 1))) by {
                    reveal(spec_focus_chain);
                }
            }
            j = j + 1;
        }
        proof {
            reveal(node_rebuilt);
            assert(s0.take(n as int) =~= s0);
            assert forall|k: int| 0 <= k < s0.len() implies (#[trigger] self.nodes@[k]).depth
                == s0[k].depth && self.nodes@[k].pod.state.id == s0[k].pod.state.id
                && self.nodes@[k].pod.state.geom_wf() by {}
            lemma_tree_wf_same_skeleton(s0, self.nodes@);
        }
        self.focus_chain = chain;
    }

    /// Write the given tree-focus flags, one per widget.
    #[verifier::spinoff_prover]
    #[verifier::rlimit(100)]
    fn write_focus_flags(&mut self, flags: Vec<bool>)
        requires
            old(self).wf(),
            flags@.len() == old(self).nodes@.len(),
        ensures
            *final(self) == (WindowRoot { nodes: final(self).nodes, ..*old(self) }),
            final(self).nodes@.len() == old(self).nodes@.len(),
            forall|k: int|
                0 <= k < old(self).nodes@.len() ==> node_focus_flag(
                    old(self).nodes@[k],
                    (#[trigger] final(self).nodes@[k]),
                    flags@[k],
                ),
            final(self).wf(),
    {
        let ghost s0 = self.nodes@;
        let n = self.nodes.len();
        let mut j: usize = 0;
        while j < n
            invariant
                n == self.nodes@.len(),
                self.nodes@.len() == s0.len(),
                0 <= j <= n,
                *self == (WindowRoot { nodes: self.nodes, ..*old(self) }),
                flags@.len() == n,
                forall|k: int| j <= k < n ==> (#[trigger] self.nodes@[k]) == s0[k],
                forall|k: int|
                    0 <= k < j ==> node_focus_flag(s0[k], (#[trigger] self.nodes@[k]), flags@[k]),
            decreases n - j,
        {
            let b = flags[j];
            self.nodes[j].pod.state.has_focus = b;
            proof {
                let ghost bj = flags@[j as int];
                assert(node_focus_flag(s0[j as int], self.nodes@[j as int], bj)) by {
                    reveal(node_focus_flag);
                }
            }
            j = j + 1;
        }
        proof {
            reveal(node_focus_flag);
            assert forall|k: int| 0 <= k < s0.len() implies (#[trigger] self.nodes@[k]).depth
                == s0[k].depth && self.nodes@[k].pod.state.id == s0[k].pod.state.id
                && self.nodes@[k].pod.state.geom_wf() by {}
            lemma_tree_wf_same_skeleton(s0, self.nodes@);
        }
    }

    /// Validate the focus pointer against the tree as it now stands: a
    /// pointer at a widget that is gone or disabled is cleared. Then
    /// refresh every widget's tree-focus flag: it holds exactly of the
    /// focused widget and its ancestors.
    #[verifier::spinoff_prover]
    #[verifier::rlimit(100)]
    pub fn validate_focus(&mut self)
        requires
            old(self).wf(),
        ensures
            final(self).focus == (match old(self).focus {
                None => None::<WidgetId>,
                Some(f) => {
                    let ix = id_index(old(self).nodes@, f);
                    if ix == -1 || disabled_in(old(self).nodes@, ix) {
                        None::<WidgetId>
                    } else {
                        Some(f)
                    }
                },
            }),
            final(self).nodes@.len() == old(self).nodes@.len(),
            forall|j: int|
                0 <= j < old(self).nodes@.len() ==> node_focus_flag(
                    old(self).nodes@[j],
                    (#[trigger] final(self).nodes@[j]),
                    (match final(self).focus {
                        None => false,
                        Some(f) => in_subtree(old(self).nodes@, j, id_index(old(self).nodes@, f)),
                    }),
                ),
            *final(self) == (WindowRoot {
                nodes: final(self).nodes,
                focus: final(self).focus,
                ..*old(self)
            }),
            final(self).wf(),
    {
        let ghost s0 = self.nodes@;
        let focus_ix: Option<usize> = match self.focus {
            None => None,
            Some(f) => {
                proof {
                    lemma_id_index(self.nodes@, f);
                }
                match self.find_widget(f) {
                    None => {
                        self.focus = None;
                        None
                    },
                    Some(ix) => {
                        if self.is_disabled_at(ix) {
                            self.focus = None;
                            None
                        } else {
                            Some(ix)
                        }
                    },
                }
            },
        };
        let n = self.nodes.len();
        let mut flags: Vec<bool> = Vec::new();
        let mut j: usize = 0;
        while j < n
            invariant
                n == self.nodes@.len(),
                s0 == self.nodes@,
                0 <= j <= n,
                focus_ix matches Some(ix) ==> ix < n,
                flags@.len() == j,
                forall|k: int|
                    0 <= k < j ==> flags@[k] == (match focus_ix {
                        None => false,
                        Some(ix) => in_subtree(s0, k, ix as int),
                    }),
            decreases n - j,
        {
            let b = match focus_ix {
                None => false,
                Some(ix) => subtree_contains(&self.nodes, j, ix),
            };
            flags.push(b);
            j = j + 1;
        }
        self.write_focus_flags(flags);
    }

    /// Run the end-of-pass bookkeeping: pending disabled changes take
    /// effect and inherited disabled statuses are recomputed; the focus
    /// request collected during the pass is resolved (last request in
    /// traversal order wins); the focus chain is rebuilt; and the focus
    /// pointer is validated against the rebuilt tree — a pointer into a
    /// removed or disabled subtree is cleared, and the tree-focus flags
    /// are refreshed.
    ///
    /// A focus request honored for a widget disabled during the same pass
    /// is not suppressed, but the validation step clears the pointer: the
    /// request cannot leave focus on a disabled widget.
    #[verifier::spinoff_prover]
    #[verifier::rlimit(100)]
    pub fn post_event_pass(&mut self)
        requires
            old(self).wf(),
        ensures
            final(self).wf(),
            final(self).nodes@.len() == old(self).nodes@.len(),
            final(self).focus_chain@ == spec_focus_chain(final(self).nodes@),
            forall|j: int|
                0 <= j < final(self).nodes@.len()
                    ==> (#[trigger] final(self).nodes@[j]).pod.state.request_focus is None,
            match final(self).focus {
                None => true,
                Some(f) => id_index(final(self).nodes@, f) != -1 && !disabled_in(
                    final(self).nodes@,
                    id_index(final(self).nodes@, f),
                ),
            },
    {
        self.apply_disabled();
        self.resolve_pending_focus();
        let ghost s2 = self.nodes@;
        self.rebuild_focus_chain();
        let ghost s3 = self.nodes@;
        self.validate_focus();
        let ghost s4 = self.nodes@;
        proof {
            reveal(node_rebuilt);
            reveal(node_focus_flag);
            reveal(node_request_cleared);
            assert forall|k: int| 0 <= k < s4.len() implies (#[trigger] s4[k]).depth == s2[k].depth
                && s4[k].pod.state.id == s2[k].pod.state.id && s4[k].accepts_focus
                == s2[k].accepts_focus && s4[k].pod.state.is_explicitly_disabled
                == s2[k].pod.state.is_explicitly_disabled
                && s4[k].pod.state.request_focus is None by {
                assert(s3[k].depth == s2[k].depth);
            }
            // the chain computed by the rebuild depends only on depths,
            // focus acceptance, explicit flags and ids, which the final
            // step keeps
            lemma_focus_chain_same_relevant(s2, s4);
            // the validated pointer was judged against nodes whose depths,
            // ids and explicit flags the final step keeps
            match self.focus {
                None => {},
                Some(f) => {
                    assert forall|k: int| 0 <= k < s4.len() implies (#[trigger] s4[k]).pod.state.id
                        == s3[k].pod.state.id by {}
                    lemma_id_same_relevant(s3, s4, f);
                    let ix = id_index(s3, f);
                    lemma_id_index(s3, f);
                    lemma_id_index(s4, f);
                    if ix != -1 {
                        lemma_disabled_same_relevant(s3, s4, ix);
                    }
                },
            }
        }
    }
}

/// Two equally long node sequences with the same depths and explicit
/// flags agree on every disabled judgement.
pub proof fn lemma_disabled_same_relevant(s: Seq<WidgetNode>, t: Seq<WidgetNode>, i: int)
    requires
        s.len() == t.len(),
        0 <= i < s.len(),
        forall|k: int|
            0 <= k < s.len() ==> (#[trigger] t[k]).depth == s[k].depth
                && t[k].pod.state.is_explicitly_disabled == s[k].pod.state.is_explicitly_disabled,
    ensures
        disabled_in(s, i) == disabled_in(t, i),
{
    lemma_in_subtree_same_depths(s, t, i);
    if disabled_in(s, i) {
        let a = choose|a: int|
            in_subtree(s, a, i) && (#[trigger] s[a]).pod.state.is_explicitly_disabled;
        assert(in_subtree(t, a, i) && t[a].pod.state.is_explicitly_disabled);
    }
    if disabled_in(t, i) {
        let a = choose|a: int|
            in_subtree(t, a, i) && (#[trigger] t[a]).pod.state.is_explicitly_disabled;
        assert(in_subtree(s, a, i) && s[a].pod.state.is_explicitly_disabled);
    }
}

/// Two equally long node sequences with the same ids agree on where an id
/// sits.
pub proof fn lemma_id_same_relevant(s: Seq<WidgetNode>, t: Seq<WidgetNode>, id: WidgetId)
    requires
        s.len() == t.len(),
        forall|k: int| 0 <= k < s.len() ==> (#[trigger] t[k]).pod.state.id == s[k].pod.state.id,
    ensures
        id_index(s, id) == id_index(t, id),
    decreases s.len(),
{
    if s.len() > 0 {
        assert forall|k: int| 0 <= k < s.len() - 1 implies (
        #[trigger] t.drop_first()[k]).pod.state.id == s.drop_first()[k].pod.state.id by {
            assert(t.drop_first()[k] == t[k + 1]);
            assert(s.drop_first()[k] == s[k + 1]);
        }
        lemma_id_same_relevant(s.drop_first(), t.drop_first(), id);
    }
}

/// Two equally long node sequences with the same depths, ids, focus
/// acceptance and explicit flags produce the same focus chain.
pub proof fn lemma_focus_chain_same_relevant(s: Seq<WidgetNode>, t: Seq<WidgetNode>)
    requires
        s.len() == t.len(),
        forall|k: int|
            0 <= k < s.len() ==> (#[trigger] t[k]).depth == s[k].depth && t[k].pod.state.id
                == s[k].pod.state.id && t[k].accepts_focus == s[k].accepts_focus
                && t[k].pod.state.is_explicitly_disabled
                == s[k].pod.state.is_explicitly_disabled,
    ensures
        spec_focus_chain(s) == spec_focus_chain(t),
    decreases s.len(),
{
    reveal(spec_focus_chain);
    if s.len() > 0 {
        let i = s.len() - 1;
        assert forall|k: int| 0 <= k < s.len() - 1 implies (#[trigger] t.drop_last()[k]).depth
            == s.drop_last()[k].depth && t.drop_last()[k].pod.state.id
            == s.drop_last()[k].pod.state.id && t.drop_last()[k].accepts_focus
            == s.drop_last()[k].accepts_focus
            && t.drop_last()[k].pod.state.is_explicitly_disabled
            == s.drop_last()[k].pod.state.is_explicitly_disabled by {
            assert(t.drop_last()[k] == t[k]);
            assert(s.drop_last()[k] == s[k]);
        }
        lemma_focus_chain_same_relevant(s.drop_last(), t.drop_last());
        lemma_disabled_same_relevant(s, t, i);
    }
}

} // verus!
