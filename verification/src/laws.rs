//! The guarantees the traversal gives: soundness and completeness of the
//! recorded match, depth priority, the aggregate-filter behaviour, and the
//! module and root fallbacks.

use vstd::prelude::*;
use crate::kind::{kind_includes, NodeKind};
use crate::pick::{
    mod_hit, own_hit, param_hit, params_hit_from, pick_in_forest, pick_in_forest_from,
    pick_in_node, pick_node_spec, self_hit,
};
use crate::span::span_contains;
use crate::tree::{
    cat_kind, forest_mem, forest_wf, lemma_forest_mem_wf, tree_mem, Crate, Node, NodeCat,
    NodeInfo, CRATE_NODE_ID,
};

verus! {

/// If one tree of `s[j..]` yields a match, so does the traversal of
/// `s[j..]`.
proof fn lemma_forest_from_some(filter: NodeKind, target: u32, s: Seq<Node>, j: int, i: int)
    requires
        0 <= j <= i < s.len(),
        pick_in_node(filter, target, s[i]) is Some,
    ensures
        pick_in_forest_from(filter, target, s, j) is Some,
    decreases i - j,
{
    if j < i {
        lemma_forest_from_some(filter, target, s, j + 1, i);
    }
}

/// Completeness of one subtree: a node of the subtree whose own rules
/// record something guarantees the subtree's traversal records something.
pub proof fn lemma_tree_complete(filter: NodeKind, target: u32, n: Node, m: Node)
    requires
        tree_mem(m, n),
        own_hit(filter, target, m) is Some,
    ensures
        pick_in_node(filter, target, n) is Some,
    decreases n,
{
    if m == n {
        if pick_in_forest_from(filter, target, n.children@, 0) is None {
            assert(pick_in_node(filter, target, n) == own_hit(filter, target, n));
        }
    } else {
        let i = choose|i: int|
            0 <= i < n.children@.len() && tree_mem(m, #[trigger] n.children@[i]);
        lemma_tree_complete(filter, target, n.children@[i], m);
        lemma_forest_from_some(filter, target, n.children@, 0, i);
    }
}

/// Completeness: a node of the forest whose own rules record something
/// guarantees the traversal records something.
pub proof fn lemma_forest_complete(filter: NodeKind, target: u32, s: Seq<Node>, m: Node)
    requires
        forest_mem(m, s),
        own_hit(filter, target, m) is Some,
    ensures
        pick_in_forest(filter, target, s) is Some,
{
    let i = choose|i: int| 0 <= i < s.len() && tree_mem(m, #[trigger] s[i]);
    lemma_tree_complete(filter, target, s[i], m);
    lemma_forest_from_some(filter, target, s, 0, i);
}

/// Soundness of one subtree: whatever the traversal records is exactly what
/// some node of the subtree records by its own rules.
pub proof fn lemma_tree_sound(filter: NodeKind, target: u32, n: Node, r: NodeInfo)
    requires
        pick_in_node(filter, target, n) == Some(r),
    ensures
        exists|m: Node| #[trigger] tree_mem(m, n) && own_hit(filter, target, m) == Some(r),
    decreases n, 1int, 0int,
{
    if pick_in_forest_from(filter, target, n.children@, 0) is Some {
        lemma_forest_from_sound(filter, target, n.children@, 0, r);
        let i = choose|i: int|
            0 <= i < n.children@.len() && pick_in_node(filter, target, #[trigger] n.children@[i])
                == Some(r);
        lemma_tree_sound(filter, target, n.children@[i], r);
        let m = choose|m: Node|
            #[trigger] tree_mem(m, n.children@[i]) && own_hit(filter, target, m) == Some(r);
        assert(tree_mem(m, n));
    } else {
        assert(tree_mem(n, n));
        assert(own_hit(filter, target, n) == Some(r));
    }
}

/// Soundness over `s[j..]`: the recorded match comes from one of its trees.
proof fn lemma_forest_from_sound(filter: NodeKind, target: u32, s: Seq<Node>, j: int, r: NodeInfo)
    requires
        pick_in_forest_from(filter, target, s, j) == Some(r),
    ensures
        exists|i: int|
            j <= i < s.len() && pick_in_node(filter, target, #[trigger] s[i]) == Some(r),
    decreases s, 0int, s.len() - j,
{
    if pick_in_node(filter, target, s[j]) is Some {
        assert(pick_in_node(filter, target, s[j]) == Some(r));
    } else {
        lemma_forest_from_sound(filter, target, s, j + 1, r);
    }
}

/// Soundness: whatever the traversal of a forest records is exactly what
/// some node of the forest records by its own rules.
pub proof fn lemma_forest_sound(filter: NodeKind, target: u32, s: Seq<Node>, r: NodeInfo)
    requires
        pick_in_forest(filter, target, s) == Some(r),
    ensures
        exists|m: Node| #[trigger] forest_mem(m, s) && own_hit(filter, target, m) == Some(r),
{
    lemma_forest_from_sound(filter, target, s, 0, r);
    let i = choose|i: int|
        0 <= i < s.len() && pick_in_node(filter, target, #[trigger] s[i]) == Some(r);
    lemma_tree_sound(filter, target, s[i], r);
    let m = choose|m: Node| #[trigger] tree_mem(m, s[i]) && own_hit(filter, target, m) == Some(r);
    assert(forest_mem(m, s));
}

/// When exactly one recording is possible in the whole tree, resolution
/// returns it: a point inside exactly one node whose rules match, with no
/// other node recording anything different, resolves to that node.
pub proof fn lemma_unique_hit(krate: Crate, filter: NodeKind, pos: u32, m: Node)
    requires
        forest_mem(m, krate.items@),
        own_hit(filter, pos, m) is Some,
        forall|m2: Node|
            #[trigger] forest_mem(m2, krate.items@) && own_hit(filter, pos, m2) is Some
                ==> own_hit(filter, pos, m2) == own_hit(filter, pos, m),
    ensures
        pick_node_spec(krate, filter, pos) == own_hit(filter, pos, m),
{
    lemma_forest_complete(filter, pos, krate.items@, m);
    let r = pick_in_forest(filter, pos, krate.items@)->Some_0;
    lemma_forest_sound(filter, pos, krate.items@, r);
}

/// Depth priority: as soon as any node below `n` records a match, the
/// traversal of `n` returns what the children's traversal returns — the
/// ancestor's own rules never decide against a matching descendant.
pub proof fn lemma_descendant_wins(filter: NodeKind, target: u32, n: Node, m: Node)
    requires
        forest_mem(m, n.children@),
        own_hit(filter, target, m) is Some,
    ensures
        pick_in_node(filter, target, n) == pick_in_forest(filter, target, n.children@),
        pick_in_node(filter, target, n) is Some,
{
    lemma_forest_complete(filter, target, n.children@, m);
}

/// An `ItemLike` query only ever returns an item-like node: the identity
/// and span of some node of the tree whose category is `Item`, `TraitItem`,
/// `ImplItem` or `ForeignItem` — never a statement, expression, pattern,
/// type or synthesized parameter.
pub proof fn lemma_itemlike_result(target: u32, s: Seq<Node>, r: NodeInfo)
    requires
        forest_wf(s),
        pick_in_forest(NodeKind::ItemLike, target, s) == Some(r),
    ensures
        exists|m: Node|
            #[trigger] forest_mem(m, s) && r == (NodeInfo { id: m.id, span: m.span }) && (m.cat
                == NodeCat::Item || m.cat == NodeCat::TraitItem || m.cat == NodeCat::ImplItem
                || m.cat == NodeCat::ForeignItem),
{
    lemma_forest_sound(NodeKind::ItemLike, target, s, r);
    let m = choose|m: Node|
        #[trigger] forest_mem(m, s) && own_hit(NodeKind::ItemLike, target, m) == Some(r);
    lemma_forest_mem_wf(m, s);
    assert(!kind_includes(NodeKind::ItemLike, NodeKind::Arg));
    if self_hit(NodeKind::ItemLike, target, m) {
        assert(kind_includes(NodeKind::ItemLike, cat_kind(m.cat)->Some_0));
    } else {
        assert(mod_hit(target, m));
        assert(m.cat == NodeCat::Item);
    }
}

/// A node matches under `ItemLike` exactly when it matches under one of the
/// four concrete item-like categories.
pub proof fn lemma_itemlike_same_as_concrete(target: u32, n: Node)
    ensures
        self_hit(NodeKind::ItemLike, target, n) <==> (self_hit(NodeKind::Item, target, n)
            || self_hit(NodeKind::TraitItem, target, n) || self_hit(NodeKind::ImplItem, target, n)
            || self_hit(NodeKind::ForeignItem, target, n)),
{
}

/// Module fallback: when nothing below a module item matched, none of its
/// own or parameter rules apply, but the target lies in its inner span —
/// the body, possibly in another file — the module item itself is recorded,
/// with its declaration span.
pub proof fn lemma_module_fallback(filter: NodeKind, target: u32, n: Node)
    requires
        pick_in_forest(filter, target, n.children@) is None,
        !(kind_includes(filter, NodeKind::Arg) && params_hit_from(target, n.params@, 0) is Some),
        !self_hit(filter, target, n),
        mod_hit(target, n),
    ensures
        pick_in_node(filter, target, n) == Some(NodeInfo { id: n.id, span: n.span }),
{
}

/// A point in the gap between a parameter's pattern and type spans matches
/// the parameter when the two spans share a hygiene context.
pub proof fn lemma_param_gap(target: u32, p: crate::tree::Param)
    requires
        p.pat_span.ctxt == p.ty_span.ctxt,
        crate::span::gap_contains(p.pat_span, p.ty_span, target),
    ensures
        param_hit(target, p),
{
}

/// A point in the gap between a parameter's pattern and type spans does not
/// match the parameter when their hygiene contexts differ and the point
/// lies in neither span itself.
pub proof fn lemma_param_gap_hygiene(target: u32, p: crate::tree::Param)
    requires
        p.pat_span.ctxt != p.ty_span.ctxt,
        !span_contains(p.pat_span, target),
        !span_contains(p.ty_span, target),
    ensures
        !param_hit(target, p),
{
}

/// Root fallback: a point no traversal rule claimed still resolves to the
/// reserved root identity with the root's span whenever it lies inside the
/// whole-source extent; a point outside that extent resolves to nothing.
pub proof fn lemma_root_fallback(krate: Crate, filter: NodeKind, pos: u32)
    requires
        pick_in_forest(filter, pos, krate.items@) is None,
    ensures
        span_contains(krate.inner, pos) ==> pick_node_spec(krate, filter, pos) == Some(
            NodeInfo { id: CRATE_NODE_ID, span: krate.span },
        ),
        !span_contains(krate.inner, pos) ==> pick_node_spec(krate, filter, pos) is None,
{
}

} // verus!
