//! Resolution of focus-change requests against the focus chain.
//!
//! During a pass, widgets attach at most one [`FocusChange`] request each to
//! their state; after the pass the window driver collects them in traversal
//! order — the last request wins — and resolves the winner here into the
//! new authoritative focus pointer.

use vstd::prelude::*;

use crate::widget::{FocusChange, WidgetId};

verus! {

/// The index of the first occurrence of `x` in `s`, or `-1` when absent.
pub open spec fn find_index(s: Seq<WidgetId>, x: WidgetId) -> int
    decreases s.len(),
{
    if s.len() == 0 {
        -1
    } else if s[0] == x {
        0
    } else {
        let rest = find_index(s.drop_first(), x);
        if rest == -1 {
            -1
        } else {
            rest + 1
        }
    }
}

/// `find_index` answers an in-range index holding `x`, or `-1` when no
/// position holds `x`.
pub proof fn lemma_find_index(s: Seq<WidgetId>, x: WidgetId)
    ensures
        find_index(s, x) == -1 ==> forall|k: int| 0 <= k < s.len() ==> s[k] != x,
        find_index(s, x) != -1 ==> 0 <= find_index(s, x) < s.len() && s[find_index(s, x)] == x,
    decreases s.len(),
{
    if s.len() > 0 && s[0] != x {
        lemma_find_index(s.drop_first(), x);
        let rest = find_index(s.drop_first(), x);
        if rest == -1 {
            assert forall|k: int| 0 <= k < s.len() implies s[k] != x by {
                if k > 0 {
                    assert(s.drop_first()[k - 1] == s[k]);
                }
            }
        } else {
            assert(s.drop_first()[rest] == s[rest + 1]);
        }
    }
}

/// The first occurrence of `id` in `chain`, if any.
pub fn index_of(chain: &Vec<WidgetId>, id: WidgetId) -> (r: Option<usize>)
    ensures
        r is None <==> find_index(chain@, id) == -1,
        r is Some ==> r->0 == find_index(chain@, id),
{
    proof {
        lemma_find_index(chain@, id);
    }
    let n = chain.len();
    let mut i: usize = 0;
    while i < n
        invariant
            n == chain@.len(),
            0 <= i <= n,
            forall|k: int| 0 <= k < i ==> chain@[k] != id,
        decreases n - i,
    {
        if chain[i].0 == id.0 {
            proof {
                lemma_find_index_prefix(chain@, id, i as int);
            }
            return Some(i);
        }
        i = i + 1;
    }
    None
}

/// When every position below `i` misses `x` and position `i` holds it, the
/// first occurrence is `i`.
pub proof fn lemma_find_index_prefix(s: Seq<WidgetId>, x: WidgetId, i: int)
    requires
        0 <= i < s.len(),
        s[i] == x,
        forall|k: int| 0 <= k < i ==> s[k] != x,
    ensures
        find_index(s, x) == i,
    decreases i,
{
    if i > 0 {
        assert forall|k: int| 0 <= k < i - 1 implies s.drop_first()[k] != x by {
            assert(s.drop_first()[k] == s[k + 1]);
        }
        assert(s.drop_first()[i - 1] == s[i]);
        lemma_find_index_prefix(s.drop_first(), x, i - 1);
    }
}

/// Where a "focus next" request moves focus: to the entry after the current
/// one in the chain, wrapping around; to the first entry when nothing (or
/// nothing still in the chain) is focused; nowhere when the chain is empty.
pub open spec fn spec_chain_next(chain: Seq<WidgetId>, focus: Option<WidgetId>) -> Option<
    WidgetId,
> {
    if chain.len() == 0 {
        None::<WidgetId>
    } else {
        match focus {
            None => Some(chain[0]),
            Some(f) => {
                let i = find_index(chain, f);
                if i == -1 {
                    Some(chain[0])
                } else if i == chain.len() - 1 {
                    Some(chain[0])
                } else {
                    Some(chain[i + 1])
                }
            },
        }
    }
}

/// Where a "focus previous" request moves focus: to the entry before the
/// current one in the chain, wrapping around; to the last entry when
/// nothing (or nothing still in the chain) is focused; nowhere when the
/// chain is empty.
pub open spec fn spec_chain_prev(chain: Seq<WidgetId>, focus: Option<WidgetId>) -> Option<
    WidgetId,
> {
    if chain.len() == 0 {
        None::<WidgetId>
    } else {
        match focus {
            None => Some(chain[chain.len() - 1]),
            Some(f) => {
                let i = find_index(chain, f);
                if i == -1 {
                    Some(chain[chain.len() - 1])
                } else if i == 0 {
                    Some(chain[chain.len() - 1])
                } else {
                    Some(chain[i - 1])
                }
            },
        }
    }
}

/// The focus pointer after resolving `req` from a widget whose tree-focus
/// status is `requester_has_focus`, together with whether the request was
/// rejected.
///
/// A request for a specific widget is always honored — even one whose
/// target is disabled later in the same pass; the pass epilogue then
/// clears such a pointer when it validates focus against the rebuilt
/// chain. `Resign`, `Next` and `Previous` are honored only when the
/// requester holds tree focus; otherwise the pointer is unchanged and the
/// request is rejected.
pub open spec fn spec_resolve_focus(
    req: FocusChange,
    requester_has_focus: bool,
    focus: Option<WidgetId>,
    chain: Seq<WidgetId>,
) -> (Option<WidgetId>, bool) {
    match req {
        FocusChange::Focus(id) => (Some(id), false),
        FocusChange::Resign => {
            if requester_has_focus {
                (None::<WidgetId>, false)
            } else {
                (focus, true)
            }
        },
        FocusChange::Next => {
            if requester_has_focus {
                (spec_chain_next(chain, focus), false)
            } else {
                (focus, true)
            }
        },
        FocusChange::Previous => {
            if requester_has_focus {
                (spec_chain_prev(chain, focus), false)
            } else {
                (focus, true)
            }
        },
    }
}

/// Resolve one collected focus-change request. Returns the new focus
/// pointer and whether the request was rejected (and must be logged).
pub fn resolve_focus_change(
    req: FocusChange,
    requester_has_focus: bool,
    focus: Option<WidgetId>,
    chain: &Vec<WidgetId>,
) -> (r: (Option<WidgetId>, bool))
    ensures
        r == spec_resolve_focus(req, requester_has_focus, focus, chain@),
{
    match req {
        FocusChange::Focus(id) => (Some(id), false),
        FocusChange::Resign => {
            if requester_has_focus {
                (None, false)
            } else {
                (focus, true)
            }
        },
        FocusChange::Next => {
            if requester_has_focus {
                (chain_next(chain, focus), false)
            } else {
                (focus, true)
            }
        },
        FocusChange::Previous => {
            if requester_has_focus {
                (chain_prev(chain, focus), false)
            } else {
                (focus, true)
            }
        },
    }
}

/// The entry after the focused one in the chain, wrapping around.
fn chain_next(chain: &Vec<WidgetId>, focus: Option<WidgetId>) -> (r: Option<WidgetId>)
    ensures
        r == spec_chain_next(chain@, focus),
{
    if chain.len() == 0 {
        return None;
    }
    match focus {
        None => Some(chain[0]),
        Some(f) => {
            match index_of(chain, f) {
                None => Some(chain[0]),
                Some(i) => {
                    proof {
                        lemma_find_index(chain@, f);
                    }
                    if i == chain.len() - 1 {
                        Some(chain[0])
                    } else {
                        Some(chain[i + 1])
                    }
                },
            }
        },
    }
}

/// The entry before the focused one in the chain, wrapping around.
fn chain_prev(chain: &Vec<WidgetId>, focus: Option<WidgetId>) -> (r: Option<WidgetId>)
    ensures
        r == spec_chain_prev(chain@, focus),
{
    if chain.len() == 0 {
        return None;
    }
    match focus {
        None => Some(chain[chain.len() - 1]),
        Some(f) => {
            match index_of(chain, f) {
                None => Some(chain[chain.len() - 1]),
                Some(i) => {
                    proof {
                        lemma_find_index(chain@, f);
                    }
                    if i == 0 {
                        Some(chain[chain.len() - 1])
                    } else {
                        Some(chain[i - 1])
                    }
                },
            }
        },
    }
}

} // verus!
