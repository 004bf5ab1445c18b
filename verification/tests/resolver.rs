//! Tests of the tree walker: depth priority, category filters, the module
//! and parameter special cases, and the root fallback.

use pick_node::{pick_node, Crate, Node, NodeCat, NodeInfo, NodeKind, Param, Span, CRATE_NODE_ID};

fn sp(lo: u32, hi: u32) -> Span {
    Span { lo, hi, ctxt: 0 }
}

fn spc(lo: u32, hi: u32, ctxt: u32) -> Span {
    Span { lo, hi, ctxt }
}

fn leaf(cat: NodeCat, id: u32, span: Span) -> Node {
    Node { cat, id, span, children: vec![], inner: None, params: vec![] }
}

fn node(cat: NodeCat, id: u32, span: Span, children: Vec<Node>) -> Node {
    Node { cat, id, span, children, inner: None, params: vec![] }
}

fn krate(span: Span, inner: Span, items: Vec<Node>) -> Crate {
    Crate { span, inner, items }
}

/// An item holding a statement holding an expression, for simple queries.
fn simple_crate() -> Crate {
    let expr = leaf(NodeCat::Expr, 3, sp(5, 8));
    let stmt = node(NodeCat::Stmt, 2, sp(2, 9), vec![expr]);
    let item = node(NodeCat::Item, 1, sp(0, 10), vec![stmt]);
    krate(sp(0, 30), sp(0, 30), vec![item])
}

#[test]
fn unique_match_is_returned() {
    let k = simple_crate();
    assert_eq!(
        pick_node(&k, NodeKind::Expr, 6),
        Some(NodeInfo { id: 3, span: sp(5, 8) })
    );
    assert_eq!(
        pick_node(&k, NodeKind::Stmt, 6),
        Some(NodeInfo { id: 2, span: sp(2, 9) })
    );
    assert_eq!(
        pick_node(&k, NodeKind::Item, 6),
        Some(NodeInfo { id: 1, span: sp(0, 10) })
    );
}

#[test]
fn point_outside_category_span_misses_it() {
    let k = simple_crate();
    // Byte 1 is inside the item but before the statement.
    assert_eq!(
        pick_node(&k, NodeKind::Stmt, 1),
        Some(NodeInfo { id: CRATE_NODE_ID, span: sp(0, 30) })
    );
    assert_eq!(
        pick_node(&k, NodeKind::Item, 1),
        Some(NodeInfo { id: 1, span: sp(0, 10) })
    );
}

#[test]
fn depth_priority_innermost_wins() {
    let inner = leaf(NodeCat::Expr, 12, sp(4, 7));
    let outer = node(NodeCat::Expr, 11, sp(2, 9), vec![inner]);
    let item = node(NodeCat::Item, 1, sp(0, 10), vec![outer]);
    let k = krate(sp(0, 30), sp(0, 30), vec![item]);
    // Both expressions contain byte 5; the innermost one is returned.
    assert_eq!(
        pick_node(&k, NodeKind::Expr, 5),
        Some(NodeInfo { id: 12, span: sp(4, 7) })
    );
    // Byte 8 lies only in the outer expression.
    assert_eq!(
        pick_node(&k, NodeKind::Expr, 8),
        Some(NodeInfo { id: 11, span: sp(2, 9) })
    );
    // Under `Any`, the deepest node of any category still wins.
    assert_eq!(
        pick_node(&k, NodeKind::Any, 5),
        Some(NodeInfo { id: 12, span: sp(4, 7) })
    );
}

#[test]
fn itemlike_matches_each_item_category() {
    let trait_item = leaf(NodeCat::TraitItem, 21, sp(2, 4));
    let impl_item = leaf(NodeCat::ImplItem, 22, sp(6, 8));
    let foreign_item = leaf(NodeCat::ForeignItem, 23, sp(10, 12));
    let item = node(
        NodeCat::Item,
        20,
        sp(0, 14),
        vec![trait_item, impl_item, foreign_item],
    );
    let k = krate(sp(0, 30), sp(0, 30), vec![item]);
    assert_eq!(
        pick_node(&k, NodeKind::ItemLike, 3),
        Some(NodeInfo { id: 21, span: sp(2, 4) })
    );
    assert_eq!(
        pick_node(&k, NodeKind::ItemLike, 7),
        Some(NodeInfo { id: 22, span: sp(6, 8) })
    );
    assert_eq!(
        pick_node(&k, NodeKind::ItemLike, 11),
        Some(NodeInfo { id: 23, span: sp(10, 12) })
    );
    // Outside every inner item, the enclosing item is the match.
    assert_eq!(
        pick_node(&k, NodeKind::ItemLike, 5),
        Some(NodeInfo { id: 20, span: sp(0, 14) })
    );
}

#[test]
fn itemlike_never_returns_an_expression() {
    let k = simple_crate();
    // Byte 6 is inside the expression, but `itemlike` must pick the item.
    assert_eq!(
        pick_node(&k, NodeKind::ItemLike, 6),
        Some(NodeInfo { id: 1, span: sp(0, 10) })
    );
    // Same result as the matching concrete category.
    assert_eq!(pick_node(&k, NodeKind::ItemLike, 6), pick_node(&k, NodeKind::Item, 6));
}

#[test]
fn module_fallback_resolves_to_module_item() {
    // A module declared at [0,5) whose body lives at [50,80) in another file.
    let inner_item = leaf(NodeCat::Item, 31, sp(55, 60));
    let module = Node {
        cat: NodeCat::Item,
        id: 30,
        span: sp(0, 5),
        children: vec![inner_item],
        inner: Some(sp(50, 80)),
        params: vec![],
    };
    let k = krate(sp(0, 100), sp(0, 100), vec![module]);
    // Inside a contained item: that item wins.
    assert_eq!(
        pick_node(&k, NodeKind::Any, 57),
        Some(NodeInfo { id: 31, span: sp(55, 60) })
    );
    // Inside the body but outside every contained item: the module item's
    // identity with its declaration span, not the root.
    assert_eq!(
        pick_node(&k, NodeKind::Any, 70),
        Some(NodeInfo { id: 30, span: sp(0, 5) })
    );
    // The fallback applies even when the filter excludes items.
    assert_eq!(
        pick_node(&k, NodeKind::Expr, 70),
        Some(NodeInfo { id: 30, span: sp(0, 5) })
    );
}

fn fn_with_param(pat_span: Span, ty_span: Span) -> Crate {
    let pat = leaf(NodeCat::Pat, 42, pat_span);
    let ty = leaf(NodeCat::Ty, 43, ty_span);
    let body = leaf(NodeCat::Expr, 44, sp(25, 28));
    let item = Node {
        cat: NodeCat::Item,
        id: 40,
        span: sp(0, 30),
        children: vec![pat, ty, body],
        inner: None,
        params: vec![Param { id: 41, pat_span, ty_span }],
    };
    krate(sp(0, 100), sp(0, 100), vec![item])
}

#[test]
fn param_colon_resolves_to_union_span() {
    // `pat : ty` with the pattern at [10,13), the type at [16,20), and the
    // colon in the gap; both spans share a hygiene context.
    let k = fn_with_param(sp(10, 13), sp(16, 20));
    assert_eq!(
        pick_node(&k, NodeKind::Arg, 14),
        Some(NodeInfo { id: 41, span: sp(10, 20) })
    );
    // A point on the pattern or the type also matches the parameter.
    assert_eq!(
        pick_node(&k, NodeKind::Arg, 11),
        Some(NodeInfo { id: 41, span: sp(10, 20) })
    );
    assert_eq!(
        pick_node(&k, NodeKind::Arg, 19),
        Some(NodeInfo { id: 41, span: sp(10, 20) })
    );
    // Under the `Pat` filter the pattern node itself wins instead.
    assert_eq!(
        pick_node(&k, NodeKind::Pat, 11),
        Some(NodeInfo { id: 42, span: sp(10, 13) })
    );
}

#[test]
fn param_gap_needs_matching_hygiene() {
    // The type span originates from a macro expansion: different context.
    let k = fn_with_param(spc(10, 13, 0), spc(16, 20, 7));
    // The colon no longer matches via the gap rule; nothing else matches
    // `arg`, so the query falls back to the root.
    assert_eq!(
        pick_node(&k, NodeKind::Arg, 14),
        Some(NodeInfo { id: CRATE_NODE_ID, span: sp(0, 100) })
    );
    // A point directly on the pattern still matches the parameter.
    assert_eq!(
        pick_node(&k, NodeKind::Arg, 11),
        Some(NodeInfo { id: 41, span: spc(10, 20, 0) })
    );
}

#[test]
fn root_fallback_inside_source() {
    let k = simple_crate();
    // Byte 20 is inside the whole-source extent but in no item: the
    // reserved root identity with the whole-tree span.
    assert_eq!(
        pick_node(&k, NodeKind::Any, 20),
        Some(NodeInfo { id: CRATE_NODE_ID, span: sp(0, 30) })
    );
}

#[test]
fn out_of_extent_returns_nothing() {
    let k = simple_crate();
    assert_eq!(pick_node(&k, NodeKind::Any, 30), None);
    assert_eq!(pick_node(&k, NodeKind::Any, 1000), None);
}

#[test]
fn macro_invocation_is_traversed_but_never_matched() {
    let arg = leaf(NodeCat::Expr, 52, sp(2, 5));
    let mac = node(NodeCat::Mac, 51, sp(0, 10), vec![arg]);
    let k = krate(sp(0, 30), sp(0, 30), vec![mac]);
    // Inside the macro's argument: the expression is found.
    assert_eq!(
        pick_node(&k, NodeKind::Any, 3),
        Some(NodeInfo { id: 52, span: sp(2, 5) })
    );
    // Inside the invocation but outside the argument: the macro itself is
    // never recorded, so the root fallback answers.
    assert_eq!(
        pick_node(&k, NodeKind::Any, 7),
        Some(NodeInfo { id: CRATE_NODE_ID, span: sp(0, 30) })
    );
}

#[test]
fn first_matching_parameter_wins() {
    let p1 = Param { id: 61, pat_span: sp(10, 12), ty_span: sp(14, 16) };
    let p2 = Param { id: 62, pat_span: sp(18, 20), ty_span: sp(22, 24) };
    let item = Node {
        cat: NodeCat::Item,
        id: 60,
        span: sp(0, 30),
        children: vec![],
        inner: None,
        params: vec![p1, p2],
    };
    let k = krate(sp(0, 100), sp(0, 100), vec![item]);
    assert_eq!(
        pick_node(&k, NodeKind::Arg, 15),
        Some(NodeInfo { id: 61, span: sp(10, 16) })
    );
    assert_eq!(
        pick_node(&k, NodeKind::Arg, 23),
        Some(NodeInfo { id: 62, span: sp(18, 24) })
    );
}
