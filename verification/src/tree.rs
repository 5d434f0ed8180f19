//! Editing a window's widget tree: adding a child widget and removing a
//! subtree.
//!
//! Both edits announce themselves the way a container widget must: the
//! parent's children-changed, chain-rebuild and layout flags are set and
//! merged into every ancestor, so the next pass epilogue rebuilds the
//! focus chain. Removing a subtree that holds the focused widget clears
//! the focus pointer as part of the teardown.

use vstd::prelude::*;

use crate::widget::{WidgetId, WidgetPod};
use crate::window::{
    depth_step_ok, id_index, lemma_id_index, tree_wf, WidgetNode, WindowRoot,
};

verus! {

/// In a well-formed tree prefix, the depth at `j` is at most `j`: depths
/// start at zero and grow by at most one per step.
pub proof fn lemma_depth_le(s: Seq<WidgetNode>, j: int)
    requires
        s.len() > 0,
        s[0].depth == 0,
        forall|i: int| 1 <= i < s.len() ==> #[trigger] depth_step_ok(s, i),
        0 <= j < s.len(),
    ensures
        s[j].depth <= j,
    decreases j,
{
    if j > 0 {
        lemma_depth_le(s, j - 1);
        assert(depth_step_ok(s, j));
    }
}

impl WindowRoot {
    /// Append a new widget with identity `id` as the last child of the
    /// widget at `parent`, scheduling the layout pass and focus-chain
    /// rebuild this requires.
    ///
    /// Returns the traversal position of the new widget, or `None` — with
    /// the window unchanged — when `parent` is out of range or `id` is
    /// already taken.
    #[verifier::spinoff_prover]
    #[verifier::rlimit(100)]
    pub fn add_child(&mut self, parent: usize, id: WidgetId, accepts_focus: bool) -> (r: Option<
        usize,
    >)
        requires
            old(self).wf(),
        ensures
            r is Some <==> parent < old(self).nodes@.len() && id_index(old(self).nodes@, id)
                == -1,
            r is None ==> *final(self) == *old(self),
            r matches Some(pos) ==> {
                &&& parent < pos <= old(self).nodes@.len()
                &&& forall|m: int|
                    parent < m < pos ==> (#[trigger] old(self).nodes@[m]).depth > old(
                        self,
                    ).nodes@[parent as int].depth
                &&& (pos == old(self).nodes@.len() || old(self).nodes@[pos as int].depth <= old(
                    self,
                ).nodes@[parent as int].depth)
                &&& final(self).nodes@.len() == old(self).nodes@.len() + 1
                &&& final(self).nodes@[pos as int].pod.state.is_fresh(id)
                &&& final(self).nodes@[pos as int].depth == old(self).nodes@[parent as int].depth
                    + 1
                &&& final(self).nodes@[pos as int].accepts_focus == accepts_focus
                &&& forall|j: int|
                    0 <= j < pos ==> (#[trigger] final(self).nodes@[j]).depth == old(
                        self,
                    ).nodes@[j].depth && final(self).nodes@[j].pod.state.id == old(
                        self,
                    ).nodes@[j].pod.state.id && final(self).nodes@[j].accepts_focus == old(
                        self,
                    ).nodes@[j].accepts_focus
                &&& forall|j: int|
                    pos <= j < old(self).nodes@.len() ==> final(self).nodes@[j + 1] == old(
                        self,
                    ).nodes@[j]
                &&& final(self).nodes@[parent as int].pod.state.children_changed
                &&& final(self).nodes@[parent as int].pod.state.update_focus_chain
                &&& final(self).nodes@[parent as int].pod.state.needs_layout
                &&& final(self).focus == old(self).focus
                &&& final(self).focus_chain@ == old(self).focus_chain@
            },
            final(self).wf(),
    {
        let n = self.nodes.len();
        if parent >= n {
            return None;
        }
        if self.has_widget(id) {
            return None;
        }
        proof {
            lemma_id_index(self.nodes@, id);
        }
        let ghost s0 = self.nodes@;
        // the insertion position: one past the end of the parent's subtree
        let dp = self.nodes[parent].depth;
        let mut pos: usize = parent + 1;
        while pos < n && self.nodes[pos].depth > dp
            invariant
                n == self.nodes@.len(),
                s0 == self.nodes@,
                parent < pos <= n,
                dp == self.nodes@[parent as int].depth,
                forall|m: int| parent < m < pos ==> (#[trigger] self.nodes@[m]).depth > dp,
            decreases n - pos,
        {
            pos = pos + 1;
        }
        // announce the change on the parent and let every ancestor absorb it
        self.nodes[parent].pod.state.children_changed = true;
        self.nodes[parent].pod.state.update_focus_chain = true;
        self.nodes[parent].pod.state.needs_layout = true;
        proof {
            assert forall|k: int| 0 <= k < s0.len() implies (#[trigger] self.nodes@[k]).depth
                == s0[k].depth && self.nodes@[k].pod.state.id == s0[k].pod.state.id
                && self.nodes@[k].pod.state.geom_wf() by {}
            crate::window::lemma_tree_wf_same_skeleton(s0, self.nodes@);
        }
        self.merge_to_ancestors(parent);
        let ghost mid = self.nodes@;
        proof {
            reveal(crate::window::spec_processed);
            assert forall|k: int| 0 <= k < s0.len() implies (#[trigger] mid[k]).depth
                == s0[k].depth && mid[k].pod.state.id == s0[k].pod.state.id
                && mid[k].accepts_focus == s0[k].accepts_focus by {}
        }
        // build the new node list with the child inserted at `pos`
        let node = WidgetNode { pod: WidgetPod::new(id), depth: dp + 1, accepts_focus };
        let mut src: Vec<WidgetNode> = Vec::new();
        core::mem::swap(&mut self.nodes, &mut src);
        let mut dst: Vec<WidgetNode> = Vec::new();
        let mut j: usize = 0;
        while j < pos
            invariant
                mid.len() == n,
                parent < pos <= n,
                0 <= j <= pos,
                src@ == mid.skip(j as int),
                dst@ == mid.take(j as int),
            decreases pos - j,
        {
            let nd = src.remove(0);
            dst.push(nd);
            proof {
                assert(mid.skip(j as int).remove(0) =~= mid.skip(j + 1));
                assert(mid.skip(j as int)[0] == mid[j as int]);
                assert(mid.take(j as int).push(mid[j as int]) =~= mid.take(j + 1));
            }
            j = j + 1;
        }
        dst.push(node);
        while src.len() > 0
            invariant
                mid.len() == n,
                parent < pos <= n,
                pos <= n - src@.len(),
                src@ == mid.skip(n - src@.len()),
                dst@ == mid.take(pos as int).push(node) + mid.subrange(
                    pos as int,
                    n - src@.len(),
                ),
            decreases src@.len(),
        {
            let ghost t = n - src@.len();
            let nd = src.remove(0);
            dst.push(nd);
            proof {
                assert(mid.skip(t).remove(0) =~= mid.skip(t + 1));
                assert(mid.skip(t)[0] == mid[t]);
                assert((mid.take(pos as int).push(node) + mid.subrange(pos as int, t)).push(
                    mid[t],
                ) =~= mid.take(pos as int).push(node) + mid.subrange(pos as int, t + 1));
            }
        }
        core::mem::swap(&mut self.nodes, &mut dst);
        proof {
            let s1 = self.nodes@;
            assert(s1 == mid.take(pos as int).push(node) + mid.subrange(pos as int, n as int));
            assert(s1.len() == n + 1);
            assert forall|k: int| 0 <= k < pos implies s1[k] == mid[k] by {}
            assert(s1[pos as int] == node);
            assert forall|k: int| pos <= k < n implies s1[k + 1] == mid[k] by {}
            // the tree stays well formed across the insertion
            assert(tree_wf(s1)) by {
                assert(s1[0].depth == 0);
                assert forall|i: int| 1 <= i < s1.len() implies 1 <= (#[trigger] s1[i]).depth
                    <= i by {
                    if i < pos {
                        assert(s1[i] == mid[i]);
                    } else if i == pos {
                        assert(dp <= parent);
                    } else {
                        assert(s1[i] == mid[i - 1]);
                    }
                }
                assert forall|i: int| 1 <= i < s1.len() implies #[trigger] depth_step_ok(
                    s1,
                    i,
                ) by {
                    if i < pos {
                        assert(depth_step_ok(mid, i as int));
                        assert(s1[i] == mid[i] && s1[i - 1] == mid[i - 1]);
                    } else if i == pos {
                        if i - 1 == parent {
                        } else {
                            assert(mid[i - 1].depth > dp);
                        }
                    } else if i == pos + 1 {
                        assert(s1[i] == mid[i - 1]);
                        if i - 1 < n {
                            assert(mid[i - 1].depth <= dp || i - 1 >= n);
                        }
                    } else {
                        assert(s1[i] == mid[i - 1] && s1[i - 1] == mid[i - 2]);
                        assert(depth_step_ok(mid, i - 1));
                    }
                }
                assert forall|a: int, b: int| 0 <= a < b < s1.len() implies (
                #[trigger] s1[a]).pod.state.id != (#[trigger] s1[b]).pod.state.id by {
                    if a != pos && b != pos {
                        let a0 = if a < pos { a } else { a - 1 };
                        let b0 = if b < pos { b } else { b - 1 };
                        assert(s1[a].pod.state.id == mid[a0].pod.state.id);
                        assert(s1[b].pod.state.id == mid[b0].pod.state.id);
                    } else if a == pos {
                        assert(s1[b].pod.state.id == mid[b - 1].pod.state.id);
                        assert(s0[b - 1].pod.state.id != id);
                    } else {
                        assert(s1[a].pod.state.id == mid[a].pod.state.id);
                        assert(s0[a].pod.state.id != id);
                    }
                }
                assert forall|k: int| 0 <= k < s1.len() implies (
                #[trigger] s1[k]).pod.state.geom_wf() by {
                    if k < pos {
                        assert(s1[k] == mid[k]);
                    } else if k > pos {
                        assert(s1[k] == mid[k - 1]);
                    }
                }
            }
        }
        Some(pos)
    }

    /// Remove the widget at `i` together with its whole subtree,
    /// scheduling the layout pass and focus-chain rebuild this requires.
    /// When the focused widget sits inside the removed subtree, the focus
    /// pointer is cleared as part of the teardown.
    ///
    /// Returns the position one past the removed subtree in the old
    /// ordering, or `None` — with the window unchanged — when `i` is the
    /// root or out of range.
    #[verifier::spinoff_prover]
    #[verifier::rlimit(100)]
    pub fn remove_subtree(&mut self, i: usize) -> (r: Option<usize>)
        requires
            old(self).wf(),
        ensures
            r is Some <==> 0 < i < old(self).nodes@.len(),
            r is None ==> *final(self) == *old(self),
            r matches Some(e) ==> {
                &&& i < e <= old(self).nodes@.len()
                &&& forall|m: int|
                    i < m < e ==> (#[trigger] old(self).nodes@[m]).depth > old(self).nodes@[i
                        as int].depth
                &&& (e == old(self).nodes@.len() || old(self).nodes@[e as int].depth <= old(
                    self,
                ).nodes@[i as int].depth)
                &&& final(self).nodes@.len() == old(self).nodes@.len() - (e - i)
                &&& forall|j: int|
                    0 <= j < i ==> (#[trigger] final(self).nodes@[j]).depth == old(
                        self,
                    ).nodes@[j].depth && final(self).nodes@[j].pod.state.id == old(
                        self,
                    ).nodes@[j].pod.state.id && final(self).nodes@[j].accepts_focus == old(
                        self,
                    ).nodes@[j].accepts_focus
                &&& forall|j: int|
                    i <= j < final(self).nodes@.len() ==> final(self).nodes@[j] == old(
                        self,
                    ).nodes@[j + (e - i)]
                &&& ((match old(self).focus {
                    Some(f) => exists|k: int|
                        i <= k < e && (#[trigger] old(self).nodes@[k]).pod.state.id == f,
                    None => false,
                }) ==> final(self).focus is None)
                &&& (!(match old(self).focus {
                    Some(f) => exists|k: int|
                        i <= k < e && (#[trigger] old(self).nodes@[k]).pod.state.id == f,
                    None => false,
                }) ==> final(self).focus == old(self).focus)
                &&& final(self).focus_chain@ == old(self).focus_chain@
            },
            final(self).wf(),
    {
        let n = self.nodes.len();
        if i == 0 || i >= n {
            return None;
        }
        let ghost s0 = self.nodes@;
        // the end of the subtree being removed
        let di = self.nodes[i].depth;
        let mut e: usize = i + 1;
        while e < n && self.nodes[e].depth > di
            invariant
                n == self.nodes@.len(),
                s0 == self.nodes@,
                i < e <= n,
                di == self.nodes@[i as int].depth,
                forall|m: int| i < m < e ==> (#[trigger] self.nodes@[m]).depth > di,
            decreases n - e,
        {
            e = e + 1;
        }
        // does the removed range hold the focused widget?
        let mut focused_inside = false;
        match self.focus {
            Some(f) => {
                let mut k: usize = i;
                while k < e
                    invariant
                        n == self.nodes@.len(),
                        s0 == self.nodes@,
                        i <= k <= e <= n,
                        Some(f) == self.focus,
                        focused_inside == exists|m: int|
                            i <= m < k && (#[trigger] self.nodes@[m]).pod.state.id == f,
                    decreases e - k,
                {
                    if self.nodes[k].pod.state.id.0 == f.0 {
                        focused_inside = true;
                    }
                    k = k + 1;
                }
            },
            None => {},
        }
        // the parent of the removed widget absorbs the change; its own
        // flags are set by the merge below happening on the removed
        // widget's announced state
        self.nodes[i].pod.state.children_changed = true;
        self.nodes[i].pod.state.update_focus_chain = true;
        self.nodes[i].pod.state.needs_layout = true;
        proof {
            assert forall|k: int| 0 <= k < s0.len() implies (#[trigger] self.nodes@[k]).depth
                == s0[k].depth && self.nodes@[k].pod.state.id == s0[k].pod.state.id
                && self.nodes@[k].pod.state.geom_wf() by {}
            crate::window::lemma_tree_wf_same_skeleton(s0, self.nodes@);
        }
        self.merge_to_ancestors(i);
        let ghost mid = self.nodes@;
        proof {
            reveal(crate::window::spec_processed);
            assert forall|k: int| 0 <= k < s0.len() implies (#[trigger] mid[k]).depth
                == s0[k].depth && mid[k].pod.state.id == s0[k].pod.state.id
                && mid[k].accepts_focus == s0[k].accepts_focus by {}
            assert forall|k: int| i <= k < s0.len() implies (#[trigger] mid[k]) == self.nodes@[k]
                && s0[k].accepts_focus == mid[k].accepts_focus by {}
        }
        // rebuild the node list without the removed range
        let mut src: Vec<WidgetNode> = Vec::new();
        core::mem::swap(&mut self.nodes, &mut src);
        let mut dst: Vec<WidgetNode> = Vec::new();
        let mut j: usize = 0;
        while j < i
            invariant
                mid.len() == n,
                0 < i < e <= n,
                0 <= j <= i,
                src@ == mid.skip(j as int),
                dst@ == mid.take(j as int),
            decreases i - j,
        {
            let nd = src.remove(0);
            dst.push(nd);
            proof {
                assert(mid.skip(j as int).remove(0) =~= mid.skip(j + 1));
                assert(mid.skip(j as int)[0] == mid[j as int]);
                assert(mid.take(j as int).push(mid[j as int]) =~= mid.take(j + 1));
            }
            j = j + 1;
        }
        let mut t: usize = i;
        while t < e
            invariant
                mid.len() == n,
                0 < i <= t <= e <= n,
                src@ == mid.skip(t as int),
                dst@ == mid.take(i as int),
            decreases e - t,
        {
            let nd = src.remove(0);
            proof {
                assert(mid.skip(t as int).remove(0) =~= mid.skip(t + 1));
            }
            t = t + 1;
        }
        while src.len() > 0
            invariant
                mid.len() == n,
                0 < i < e <= n,
                e <= n - src@.len(),
                src@ == mid.skip(n - src@.len()),
                dst@ == mid.take(i as int) + mid.subrange(e as int, n - src@.len()),
            decreases src@.len(),
        {
            let ghost t2 = n - src@.len();
            let nd = src.remove(0);
            dst.push(nd);
            proof {
                assert(mid.skip(t2).remove(0) =~= mid.skip(t2 + 1));
                assert(mid.skip(t2)[0] == mid[t2]);
                assert((mid.take(i as int) + mid.subrange(e as int, t2)).push(mid[t2]) =~= mid.take(
                    i as int,
                ) + mid.subrange(e as int, t2 + 1));
            }
        }
        core::mem::swap(&mut self.nodes, &mut dst);
        if focused_inside {
            self.focus = None;
        }
        proof {
            let s1 = self.nodes@;
            let c = (e - i) as int;
            assert(s1 == mid.take(i as int) + mid.subrange(e as int, n as int));
            assert(s1.len() == n - c);
            assert forall|k: int| 0 <= k < i implies s1[k] == mid[k] by {}
            assert forall|k: int| i <= k < s1.len() implies s1[k] == mid[k + c] by {}
            // the tree stays well formed across the removal
            assert(tree_wf(s1)) by {
                assert(s1[0].depth == 0);
                assert forall|k: int| 1 <= k < s1.len() implies #[trigger] depth_step_ok(
                    s1,
                    k,
                ) by {
                    if k < i {
                        assert(depth_step_ok(mid, k));
                    } else if k == i {
                        assert(s1[k] == mid[k + c]);
                        assert(mid[k + c].depth <= di);
                        assert(depth_step_ok(mid, i as int));
                    } else {
                        assert(s1[k] == mid[k + c] && s1[k - 1] == mid[k + c - 1]);
                        assert(depth_step_ok(mid, k + c));
                    }
                }
                assert forall|k: int| 1 <= k < s1.len() implies 1 <= (#[trigger] s1[k]).depth
                    <= k by {
                    if k < i {
                        assert(s1[k] == mid[k]);
                    } else {
                        assert(s1[k] == mid[k + c]);
                        lemma_depth_le(s1, k);
                    }
                }
                assert forall|a: int, b: int| 0 <= a < b < s1.len() implies (
                #[trigger] s1[a]).pod.state.id != (#[trigger] s1[b]).pod.state.id by {
                    let a0 = if a < i { a } else { a + c };
                    let b0 = if b < i { b } else { b + c };
                    assert(s1[a].pod.state.id == mid[a0].pod.state.id);
                    assert(s1[b].pod.state.id == mid[b0].pod.state.id);
                }
                assert forall|k: int| 0 <= k < s1.len() implies (
                #[trigger] s1[k]).pod.state.geom_wf() by {
                    if k < i {
                        assert(s1[k] == mid[k]);
                    } else {
                        assert(s1[k] == mid[k + c]);
                    }
                }
            }
        }
        Some(e)
    }
}

} // verus!
