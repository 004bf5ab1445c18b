//! The tree walker: one depth-first traversal that records at most one
//! match, testing each node only after its children so the deepest
//! candidate wins, plus the module and parameter special cases and the
//! whole-tree root fallback.

use vstd::prelude::*;
use crate::kind::{kind_includes, NodeKind};
use crate::span::{gap_contains, span_contains, span_union, Span};
use crate::tree::{cat_kind, forest_mem, tree_mem, Crate, Node, NodeInfo, Param, CRATE_NODE_ID};

verus! {

/// First-match-wins combination of two candidate results: an already
/// recorded match is never overwritten.
pub open spec fn merge_hit(a: Option<NodeInfo>, b: Option<NodeInfo>) -> Option<NodeInfo> {
    if a is Some {
        a
    } else {
        b
    }
}

/// The general per-node rule: the filter accepts this node's category and
/// the node's span contains the target point.
pub open spec fn self_hit(filter: NodeKind, target: u32, n: Node) -> bool {
    match cat_kind(n.cat) {
        Some(k) => kind_includes(filter, k) && span_contains(n.span, target),
        None => false,
    }
}

/// The module special case: the target lies inside the module item's inner
/// span (its body, possibly in another included file).
pub open spec fn mod_hit(target: u32, n: Node) -> bool {
    match n.inner {
        Some(inner) => span_contains(inner, target),
        None => false,
    }
}

/// Whether a parameter matches the target point: the point lies in the
/// pattern span, in the type span, or — only when the two spans share a
/// hygiene context, so the region between them is literal source — in the
/// gap between them.
pub open spec fn param_hit(target: u32, p: Param) -> bool {
    ||| span_contains(p.pat_span, target)
    ||| span_contains(p.ty_span, target)
    ||| (p.pat_span.ctxt == p.ty_span.ctxt && gap_contains(p.pat_span, p.ty_span, target))
}

/// The node synthesized for a matching parameter: its identity with the
/// union of its pattern and type spans.
pub open spec fn param_info(p: Param) -> NodeInfo {
    NodeInfo { id: p.id, span: span_union(p.pat_span, p.ty_span) }
}

/// The first parameter of `ps[i..]` matching the target, in declaration
/// order.
pub open spec fn params_hit_from(target: u32, ps: Seq<Param>, i: int) -> Option<NodeInfo>
    decreases ps.len() - i,
{
    if 0 <= i < ps.len() {
        if param_hit(target, ps[i]) {
            Some(param_info(ps[i]))
        } else {
            params_hit_from(target, ps, i + 1)
        }
    } else {
        None
    }
}

/// What a node records by its own rules, once its children have recorded
/// nothing: parameter synthesis first (it runs while visiting the function
/// node, before the node's own test), then the general rule, then the
/// module special case.
pub open spec fn own_hit(filter: NodeKind, target: u32, n: Node) -> Option<NodeInfo> {
    if kind_includes(filter, NodeKind::Arg) && params_hit_from(target, n.params@, 0) is Some {
        params_hit_from(target, n.params@, 0)
    } else if self_hit(filter, target, n) {
        Some(NodeInfo { id: n.id, span: n.span })
    } else if mod_hit(target, n) {
        Some(NodeInfo { id: n.id, span: n.span })
    } else {
        None
    }
}

/// The traversal of one subtree: children first, in order, then the node's
/// own rules — so an inner match always beats this node's own.
pub open spec fn pick_in_node(filter: NodeKind, target: u32, n: Node) -> Option<NodeInfo>
    decreases n, 1int,
{
    merge_hit(
        pick_in_forest_from(filter, target, n.children@, 0),
        own_hit(filter, target, n),
    )
}

/// The traversal of the trees `s[i..]`, in order, first match kept.
pub open spec fn pick_in_forest_from(
    filter: NodeKind,
    target: u32,
    s: Seq<Node>,
    i: int,
) -> Option<NodeInfo>
    decreases s, 0int, s.len() - i,
{
    if 0 <= i < s.len() {
        merge_hit(
            pick_in_node(filter, target, s[i]),
            pick_in_forest_from(filter, target, s, i + 1),
        )
    } else {
        None
    }
}

/// The traversal of a whole forest.
pub open spec fn pick_in_forest(filter: NodeKind, target: u32, s: Seq<Node>) -> Option<NodeInfo> {
    pick_in_forest_from(filter, target, s, 0)
}

/// What resolving a point against a whole tree returns: the traversal's
/// match if there is one, else the reserved root identity with the root's
/// span whenever the point still lies in the whole-source extent, else
/// nothing.
pub open spec fn pick_node_spec(krate: Crate, filter: NodeKind, pos: u32) -> Option<NodeInfo> {
    match pick_in_forest(filter, pos, krate.items@) {
        Some(r) => Some(r),
        None => if span_contains(krate.inner, pos) {
            Some(NodeInfo { id: CRATE_NODE_ID, span: krate.span })
        } else {
            None
        },
    }
}

/// Tests one node by the general rule, after its children.
fn test_self(filter: NodeKind, target: u32, n: &Node, slot: &mut Option<NodeInfo>)
    ensures
        *final(slot) == (if self_hit(filter, target, *n) {
            merge_hit(*old(slot), Some(NodeInfo { id: n.id, span: n.span }))
        } else {
            *old(slot)
        }),
{
    let kind = match n.cat {
        crate::tree::NodeCat::Item => Some(NodeKind::Item),
        crate::tree::NodeCat::TraitItem => Some(NodeKind::TraitItem),
        crate::tree::NodeCat::ImplItem => Some(NodeKind::ImplItem),
        crate::tree::NodeCat::ForeignItem => Some(NodeKind::ForeignItem),
        crate::tree::NodeCat::Stmt => Some(NodeKind::Stmt),
        crate::tree::NodeCat::Expr => Some(NodeKind::Expr),
        crate::tree::NodeCat::Pat => Some(NodeKind::Pat),
        crate::tree::NodeCat::Ty => Some(NodeKind::Ty),
        crate::tree::NodeCat::Mac => None,
    };
    if let Some(k) = kind {
        if slot.is_none() && filter.includes(k) && n.span.contains(target) {
            *slot = Some(NodeInfo { id: n.id, span: n.span });
        }
    }
}

/// Runs the parameter synthesis over a function-like node's parameters:
/// first matching parameter wins, and nothing is recorded once the slot is
/// filled.
fn test_params(filter: NodeKind, target: u32, n: &Node, slot: &mut Option<NodeInfo>)
    ensures
        *final(slot) == (if kind_includes(filter, NodeKind::Arg) {
            merge_hit(*old(slot), params_hit_from(target, n.params@, 0))
        } else {
            *old(slot)
        }),
{
    if !filter.includes(NodeKind::Arg) {
        return ;
    }
    let len = n.params.len();
    let mut i: usize = 0;
    while i < len
        invariant
            len == n.params@.len(),
            0 <= i <= len,
            merge_hit(*slot, params_hit_from(target, n.params@, i as int)) == merge_hit(
                *old(slot),
                params_hit_from(target, n.params@, 0),
            ),
        decreases len - i,
    {
        let p = &n.params[i];
        if slot.is_none() {
            if p.pat_span.contains(target) || p.ty_span.contains(target) || (p.pat_span.ctxt
                == p.ty_span.ctxt && p.pat_span.gap_to_contains(&p.ty_span, target)) {
                *slot = Some(NodeInfo { id: p.id, span: p.pat_span.to(&p.ty_span) });
            }
        }
        i = i + 1;
    }
}

/// Visits one subtree: children first, then parameter synthesis, then the
/// node's own test, then the module special case. A slot already filled is
/// never overwritten.
fn visit_node(filter: NodeKind, target: u32, n: &Node, slot: &mut Option<NodeInfo>)
    ensures
        *final(slot) == merge_hit(*old(slot), pick_in_node(filter, target, *n)),
    decreases *n,
{
    let len = n.children.len();
    let mut i: usize = 0;
    while i < len
        invariant
            len == n.children@.len(),
            0 <= i <= len,
            merge_hit(*slot, pick_in_forest_from(filter, target, n.children@, i as int))
                == merge_hit(*old(slot), pick_in_forest_from(filter, target, n.children@, 0)),
        decreases len - i,
    {
        proof {
            assert(decreases_to!(*n => n.children@[i as int]));
        }
        visit_node(filter, target, &n.children[i], slot);
        i = i + 1;
    }
    test_params(filter, target, n, slot);
    test_self(filter, target, n, slot);
    if slot.is_none() {
        if let Some(inner) = &n.inner {
            if inner.contains(target) {
                *slot = Some(NodeInfo { id: n.id, span: n.span });
            }
        }
    }
}

/// Finds the most specific node of the requested category containing the
/// byte offset `pos`, falling back to the reserved root when the offset
/// lies in the whole-source extent but no finer node matched.
pub fn pick_node(krate: &Crate, kind: NodeKind, pos: u32) -> (r: Option<NodeInfo>)
    ensures
        r == pick_node_spec(*krate, kind, pos),
{
    let mut slot: Option<NodeInfo> = None;
    let len = krate.items.len();
    let mut i: usize = 0;
    while i < len
        invariant
            len == krate.items@.len(),
            0 <= i <= len,
            merge_hit(slot, pick_in_forest_from(kind, pos, krate.items@, i as int)) == merge_hit(
                None::<NodeInfo>,
                pick_in_forest_from(kind, pos, krate.items@, 0),
            ),
        decreases len - i,
    {
        visit_node(kind, pos, &krate.items[i], &mut slot);
        i = i + 1;
    }
    if slot.is_none() && krate.inner.contains(pos) {
        slot = Some(NodeInfo { id: CRATE_NODE_ID, span: krate.span });
    }
    slot
}

} // verus!
