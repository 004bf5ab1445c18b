//! The syntax tree as the resolver sees it: node categories, spans,
//! identities, module inner spans and function parameters.

use vstd::prelude::*;
use crate::kind::NodeKind;
use crate::span::Span;

verus! {

/// The reserved identity of the whole-tree root, used by the root fallback.
pub const CRATE_NODE_ID: u32 = 0;

/// The category that labels an actual tree node. Aggregate filters never
/// appear here, and a parameter has no first-class node of its own. A
/// macro invocation is traversed structurally but is never matchable.
#[derive(Clone, Copy, PartialEq, Eq, Structural, Debug)]
pub enum NodeCat {
    /// A top-level or module-level item.
    Item,
    /// An item inside a `trait` block.
    TraitItem,
    /// An item inside an `impl` block.
    ImplItem,
    /// An item inside a foreign block.
    ForeignItem,
    /// A statement.
    Stmt,
    /// An expression.
    Expr,
    /// A pattern.
    Pat,
    /// A type annotation.
    Ty,
    /// A macro invocation: recursed into, never recorded.
    Mac,
}

/// The filter kind a node of category `c` is matched under, or `None` for
/// categories that no filter ever accepts.
pub open spec fn cat_kind(c: NodeCat) -> Option<NodeKind> {
    match c {
        NodeCat::Item => Some(NodeKind::Item),
        NodeCat::TraitItem => Some(NodeKind::TraitItem),
        NodeCat::ImplItem => Some(NodeKind::ImplItem),
        NodeCat::ForeignItem => Some(NodeKind::ForeignItem),
        NodeCat::Stmt => Some(NodeKind::Stmt),
        NodeCat::Expr => Some(NodeKind::Expr),
        NodeCat::Pat => Some(NodeKind::Pat),
        NodeCat::Ty => Some(NodeKind::Ty),
        NodeCat::Mac => None,
    }
}

/// A declared function parameter: its identity plus the spans of its
/// pattern and of its type annotation. The parameter itself has no tree
/// node; a match synthesizes one from these two spans.
#[derive(Clone, Copy, PartialEq, Eq, Structural, Debug)]
pub struct Param {
    /// The parameter's pre-existing identity.
    pub id: u32,
    /// Span of the binding pattern.
    pub pat_span: Span,
    /// Span of the type annotation.
    pub ty_span: Span,
}

/// One node of the syntax tree, with the structure the resolver reads: its
/// category, identity and span, its structural children, a module item's
/// inner span, and a function-like node's declared parameters.
#[derive(Debug)]
pub struct Node {
    /// The category this node would be matched as.
    pub cat: NodeCat,
    /// The node's process-unique identity.
    pub id: u32,
    /// The node's own source span. For a module item this covers only the
    /// declaration at the declaration site.
    pub span: Span,
    /// The structural children, in source order.
    pub children: Vec<Node>,
    /// For a module item: the span of its full body, possibly in a
    /// different included file than the declaration.
    pub inner: Option<Span>,
    /// For a function-like node: its parameters, in declaration order.
    pub params: Vec<Param>,
}

/// A fully parsed tree: the root module's items, the root's own span, and
/// the inner span covering the whole source extent.
#[derive(Debug)]
pub struct Crate {
    /// The root's span, reported by the root fallback.
    pub span: Span,
    /// The root module's inner span: the whole-source extent.
    pub inner: Span,
    /// The root module's items, in source order.
    pub items: Vec<Node>,
}

/// The result of a resolution: the chosen node's identity and span, copied
/// out of the tree.
#[derive(Clone, Copy, PartialEq, Eq, Structural, Debug)]
pub struct NodeInfo {
    /// The chosen node's identity.
    pub id: u32,
    /// The chosen node's span.
    pub span: Span,
}

/// Whether `m` is a node of the subtree rooted at `n` (including `n`).
pub open spec fn tree_mem(m: Node, n: Node) -> bool
    decreases n,
{
    m == n || exists|i: int|
        0 <= i < n.children@.len() && tree_mem(m, #[trigger] n.children@[i])
}

/// Whether `m` is a node of one of the trees of `s`.
pub open spec fn forest_mem(m: Node, s: Seq<Node>) -> bool {
    exists|i: int| 0 <= i < s.len() && tree_mem(m, #[trigger] s[i])
}

/// Structural well-formedness of a node: only a module item carries an
/// inner span.
pub open spec fn node_wf(n: Node) -> bool
    decreases n,
{
    &&& (n.inner is Some ==> n.cat == NodeCat::Item)
    &&& forall|i: int|
        0 <= i < n.children@.len() ==> node_wf(#[trigger] n.children@[i])
}

/// Structural well-formedness of every tree in `s`.
pub open spec fn forest_wf(s: Seq<Node>) -> bool {
    forall|i: int| 0 <= i < s.len() ==> node_wf(#[trigger] s[i])
}

/// A well-formed member of a well-formed forest is itself well-formed.
pub proof fn lemma_forest_mem_wf(m: Node, s: Seq<Node>)
    requires
        forest_wf(s),
        forest_mem(m, s),
    ensures
        node_wf(m),
{
    let i = choose|i: int| 0 <= i < s.len() && tree_mem(m, s[i]);
    lemma_tree_mem_wf(m, s[i]);
}

/// A member of a well-formed tree is itself well-formed.
pub proof fn lemma_tree_mem_wf(m: Node, n: Node)
    requires
        node_wf(n),
        tree_mem(m, n),
    ensures
        node_wf(m),
    decreases n,
{
    if m != n {
        let i = choose|i: int|
            0 <= i < n.children@.len() && tree_mem(m, n.children@[i]);
        lemma_tree_mem_wf(m, n.children@[i]);
    }
}

} // verus!
