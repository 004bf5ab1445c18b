//! The closed set of selectable node categories and its inclusion relation.

use vstd::prelude::*;
use crate::text::str_eq;
use crate::error::PickError;

verus! {

/// A category a query may ask for. `Any` and `ItemLike` are aggregate
/// filters: they widen what a query accepts but never label an actual node.
#[derive(Clone, Copy, PartialEq, Eq, Structural, Debug)]
pub enum NodeKind {
    /// Aggregate: matches every concrete category.
    Any,
    /// Aggregate: matches exactly the four item-like categories.
    ItemLike,
    /// A top-level or module-level item.
    Item,
    /// An item inside a `trait` block.
    TraitItem,
    /// An item inside an `impl` block.
    ImplItem,
    /// An item inside a foreign block.
    ForeignItem,
    /// A statement.
    Stmt,
    /// An expression.
    Expr,
    /// A pattern.
    Pat,
    /// A type annotation.
    Ty,
    /// A function parameter, synthesized from its pattern and type spans.
    Arg,
}

/// The inclusion relation of the two-level category hierarchy: `Any`
/// includes everything, `ItemLike` includes exactly the four item-like
/// categories, and a concrete category includes only itself.
pub open spec fn kind_includes(filter: NodeKind, actual: NodeKind) -> bool {
    match filter {
        NodeKind::Any => true,
        NodeKind::ItemLike => match actual {
            NodeKind::Item | NodeKind::TraitItem | NodeKind::ImplItem
                | NodeKind::ForeignItem => true,
            _ => false,
        },
        _ => filter == actual,
    }
}

/// The category named by `s`, if `s` is one of the recognized names.
pub open spec fn kind_for_name(s: Seq<char>) -> Option<NodeKind> {
    if s == "any"@ {
        Some(NodeKind::Any)
    } else if s == "itemlike"@ {
        Some(NodeKind::ItemLike)
    } else if s == "item"@ {
        Some(NodeKind::Item)
    } else if s == "trait_item"@ {
        Some(NodeKind::TraitItem)
    } else if s == "impl_item"@ {
        Some(NodeKind::ImplItem)
    } else if s == "foreign_item"@ {
        Some(NodeKind::ForeignItem)
    } else if s == "stmt"@ {
        Some(NodeKind::Stmt)
    } else if s == "expr"@ {
        Some(NodeKind::Expr)
    } else if s == "pat"@ {
        Some(NodeKind::Pat)
    } else if s == "ty"@ {
        Some(NodeKind::Ty)
    } else if s == "arg"@ {
        Some(NodeKind::Arg)
    } else {
        None
    }
}

/// The textual name of a category.
pub open spec fn name_for_kind(k: NodeKind) -> Seq<char> {
    match k {
        NodeKind::Any => "any"@,
        NodeKind::ItemLike => "itemlike"@,
        NodeKind::Item => "item"@,
        NodeKind::TraitItem => "trait_item"@,
        NodeKind::ImplItem => "impl_item"@,
        NodeKind::ForeignItem => "foreign_item"@,
        NodeKind::Stmt => "stmt"@,
        NodeKind::Expr => "expr"@,
        NodeKind::Pat => "pat"@,
        NodeKind::Ty => "ty"@,
        NodeKind::Arg => "arg"@,
    }
}

impl NodeKind {
    /// Whether this filter accepts a node of category `other`.
    pub fn includes(self, other: NodeKind) -> (r: bool)
        ensures
            r == kind_includes(self, other),
    {
        match self {
            NodeKind::Any => true,
            NodeKind::ItemLike => match other {
                NodeKind::Item | NodeKind::TraitItem | NodeKind::ImplItem
                    | NodeKind::ForeignItem => true,
                _ => false,
            },
            _ => self == other,
        }
    }

    /// The name this category is requested by.
    pub fn as_str(&self) -> (r: &'static str)
        ensures
            r@ == name_for_kind(*self),
    {
        match *self {
            NodeKind::Any => "any",
            NodeKind::ItemLike => "itemlike",
            NodeKind::Item => "item",
            NodeKind::TraitItem => "trait_item",
            NodeKind::ImplItem => "impl_item",
            NodeKind::ForeignItem => "foreign_item",
            NodeKind::Stmt => "stmt",
            NodeKind::Expr => "expr",
            NodeKind::Pat => "pat",
            NodeKind::Ty => "ty",
            NodeKind::Arg => "arg",
        }
    }

    /// Parses a category name; an unrecognized name is `UnknownCategory`.
    pub fn from_str(s: &str) -> (r: Result<NodeKind, PickError>)
        ensures
            r == match kind_for_name(s@) {
                Some(k) => Result::<NodeKind, PickError>::Ok(k),
                None => Result::<NodeKind, PickError>::Err(PickError::UnknownCategory),
            },
    {
        if str_eq(s, "any") {
            Ok(NodeKind::Any)
        } else if str_eq(s, "itemlike") {
            Ok(NodeKind::ItemLike)
        } else if str_eq(s, "item") {
            Ok(NodeKind::Item)
        } else if str_eq(s, "trait_item") {
            Ok(NodeKind::TraitItem)
        } else if str_eq(s, "impl_item") {
            Ok(NodeKind::ImplItem)
        } else if str_eq(s, "foreign_item") {
            Ok(NodeKind::ForeignItem)
        } else if str_eq(s, "stmt") {
            Ok(NodeKind::Stmt)
        } else if str_eq(s, "expr") {
            Ok(NodeKind::Expr)
        } else if str_eq(s, "pat") {
            Ok(NodeKind::Pat)
        } else if str_eq(s, "ty") {
            Ok(NodeKind::Ty)
        } else if str_eq(s, "arg") {
            Ok(NodeKind::Arg)
        } else {
            Err(PickError::UnknownCategory)
        }
    }
}

/// Every category's name parses back to that category.
pub proof fn lemma_name_round_trip(k: NodeKind)
    ensures
        kind_for_name(name_for_kind(k)) == Some(k),
{
    reveal_strlit("any");
    reveal_strlit("itemlike");
    reveal_strlit("item");
    reveal_strlit("trait_item");
    reveal_strlit("impl_item");
    reveal_strlit("foreign_item");
    reveal_strlit("stmt");
    reveal_strlit("expr");
    reveal_strlit("pat");
    reveal_strlit("ty");
    reveal_strlit("arg");
    assert("itemlike"@.len() != "any"@.len());
    assert("itemlike"@ != "any"@);
    assert("item"@.len() != "any"@.len());
    assert("item"@ != "any"@);
    assert("item"@.len() != "itemlike"@.len());
    assert("item"@ != "itemlike"@);
    assert("trait_item"@.len() != "any"@.len());
    assert("trait_item"@ != "any"@);
    assert("trait_item"@.len() != "itemlike"@.len());
    assert("trait_item"@ != "itemlike"@);
    assert("trait_item"@.len() != "item"@.len());
    assert("trait_item"@ != "item"@);
    assert("impl_item"@.len() != "any"@.len());
    assert("impl_item"@ != "any"@);
    assert("impl_item"@.len() != "itemlike"@.len());
    assert("impl_item"@ != "itemlike"@);
    assert("impl_item"@.len() != "item"@.len());
    assert("impl_item"@ != "item"@);
    assert("impl_item"@.len() != "trait_item"@.len());
    assert("impl_item"@ != "trait_item"@);
    assert("foreign_item"@.len() != "any"@.len());
    assert("foreign_item"@ != "any"@);
    assert("foreign_item"@.len() != "itemlike"@.len());
    assert("foreign_item"@ != "itemlike"@);
    assert("foreign_item"@.len() != "item"@.len());
    assert("foreign_item"@ != "item"@);
    assert("foreign_item"@.len() != "trait_item"@.len());
    assert("foreign_item"@ != "trait_item"@);
    assert("foreign_item"@.len() != "impl_item"@.len());
    assert("foreign_item"@ != "impl_item"@);
    assert("stmt"@.len() != "any"@.len());
    assert("stmt"@ != "any"@);
    assert("stmt"@.len() != "itemlike"@.len());
    assert("stmt"@ != "itemlike"@);
    assert("stmt"@[0] != "item"@[0]);
    assert("stmt"@ != "item"@);
    assert("stmt"@.len() != "trait_item"@.len());
    assert("stmt"@ != "trait_item"@);
    assert("stmt"@.len() != "impl_item"@.len());
    assert("stmt"@ != "impl_item"@);
    assert("stmt"@.len() != "foreign_item"@.len());
    assert("stmt"@ != "foreign_item"@);
    assert("expr"@.len() != "any"@.len());
    assert("expr"@ != "any"@);
    assert("expr"@.len() != "itemlike"@.len());
    assert("expr"@ != "itemlike"@);
    assert("expr"@[0] != "item"@[0]);
    assert("expr"@ != "item"@);
    assert("expr"@.len() != "trait_item"@.len());
    assert("expr"@ != "trait_item"@);
    assert("expr"@.len() != "impl_item"@.len());
    assert("expr"@ != "impl_item"@);
    assert("expr"@.len() != "foreign_item"@.len());
    assert("expr"@ != "foreign_item"@);
    assert("expr"@[0] != "stmt"@[0]);
    assert("expr"@ != "stmt"@);
    assert("pat"@[0] != "any"@[0]);
    assert("pat"@ != "any"@);
    assert("pat"@.len() != "itemlike"@.len());
    assert("pat"@ != "itemlike"@);
    assert("pat"@.len() != "item"@.len());
    assert("pat"@ != "item"@);
    assert("pat"@.len() != "trait_item"@.len());
    assert("pat"@ != "trait_item"@);
    assert("pat"@.len() != "impl_item"@.len());
    assert("pat"@ != "impl_item"@);
    assert("pat"@.len() != "foreign_item"@.len());
    assert("pat"@ != "foreign_item"@);
    assert("pat"@.len() != "stmt"@.len());
    assert("pat"@ != "stmt"@);
    assert("pat"@.len() != "expr"@.len());
    assert("pat"@ != "expr"@);
    assert("ty"@.len() != "any"@.len());
    assert("ty"@ != "any"@);
    assert("ty"@.len() != "itemlike"@.len());
    assert("ty"@ != "itemlike"@);
    assert("ty"@.len() != "item"@.len());
    assert("ty"@ != "item"@);
    assert("ty"@.len() != "trait_item"@.len());
    assert("ty"@ != "trait_item"@);
    assert("ty"@.len() != "impl_item"@.len());
    assert("ty"@ != "impl_item"@);
    assert("ty"@.len() != "foreign_item"@.len());
    assert("ty"@ != "foreign_item"@);
    assert("ty"@.len() != "stmt"@.len());
    assert("ty"@ != "stmt"@);
    assert("ty"@.len() != "expr"@.len());
    assert("ty"@ != "expr"@);
    assert("ty"@.len() != "pat"@.len());
    assert("ty"@ != "pat"@);
    assert("arg"@[1] != "any"@[1]);
    assert("arg"@ != "any"@);
    assert("arg"@.len() != "itemlike"@.len());
    assert("arg"@ != "itemlike"@);
    assert("arg"@.len() != "item"@.len());
    assert("arg"@ != "item"@);
    assert("arg"@.len() != "trait_item"@.len());
    assert("arg"@ != "trait_item"@);
    assert("arg"@.len() != "impl_item"@.len());
    assert("arg"@ != "impl_item"@);
    assert("arg"@.len() != "foreign_item"@.len());
    assert("arg"@ != "foreign_item"@);
    assert("arg"@.len() != "stmt"@.len());
    assert("arg"@ != "stmt"@);
    assert("arg"@.len() != "expr"@.len());
    assert("arg"@ != "expr"@);
    assert("arg"@[0] != "pat"@[0]);
    assert("arg"@ != "pat"@);
    assert("arg"@.len() != "ty"@.len());
    assert("arg"@ != "ty"@);
    match k {
        NodeKind::Any => assert(kind_for_name("any"@) == Some(NodeKind::Any)),
        NodeKind::ItemLike => assert(kind_for_name("itemlike"@) == Some(NodeKind::ItemLike)),
        NodeKind::Item => assert(kind_for_name("item"@) == Some(NodeKind::Item)),
        NodeKind::TraitItem => assert(kind_for_name("trait_item"@) == Some(NodeKind::TraitItem)),
        NodeKind::ImplItem => assert(kind_for_name("impl_item"@) == Some(NodeKind::ImplItem)),
        NodeKind::ForeignItem => assert(kind_for_name("foreign_item"@) == Some(NodeKind::ForeignItem)),
        NodeKind::Stmt => assert(kind_for_name("stmt"@) == Some(NodeKind::Stmt)),
        NodeKind::Expr => assert(kind_for_name("expr"@) == Some(NodeKind::Expr)),
        NodeKind::Pat => assert(kind_for_name("pat"@) == Some(NodeKind::Pat)),
        NodeKind::Ty => assert(kind_for_name("ty"@) == Some(NodeKind::Ty)),
        NodeKind::Arg => assert(kind_for_name("arg"@) == Some(NodeKind::Arg)),
    }
}

/// `ItemLike` accepts a category exactly when it is one of the four
/// item-like concrete categories, and never a statement, expression,
/// pattern, type or parameter.
pub proof fn lemma_itemlike_members(actual: NodeKind)
    ensures
        kind_includes(NodeKind::ItemLike, actual) <==> (actual == NodeKind::Item
            || actual == NodeKind::TraitItem || actual == NodeKind::ImplItem
            || actual == NodeKind::ForeignItem),
{
}

} // verus!
