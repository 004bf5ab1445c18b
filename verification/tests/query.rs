//! Tests of category-name parsing, position-to-offset mapping, its error
//! conditions, and the full command with its rendered coordinates.

use pick_node::{
    crate_mapped_check, pick_node_at_loc, pick_node_command, CommandOutcome, Crate, Node, NodeCat,
    NodeInfo, NodeKind, Param, PickError, SourceFile, SourceMap, Span,
};

fn sp(lo: u32, hi: u32) -> Span {
    Span { lo, hi, ctxt: 0 }
}

fn leaf(cat: NodeCat, id: u32, span: Span) -> Node {
    Node { cat, id, span, children: vec![], inner: None, params: vec![] }
}

/// One file of three lines of ten bytes each.
fn map_one_file() -> SourceMap {
    SourceMap {
        files: vec![SourceFile {
            name: String::from("main.rs"),
            lines: vec![(0, 10), (10, 20), (20, 30)],
        }],
    }
}

fn simple_crate() -> Crate {
    let expr = leaf(NodeCat::Expr, 3, sp(5, 8));
    let stmt = Node {
        cat: NodeCat::Stmt,
        id: 2,
        span: sp(2, 9),
        children: vec![expr],
        inner: None,
        params: vec![],
    };
    let item = Node {
        cat: NodeCat::Item,
        id: 1,
        span: sp(0, 10),
        children: vec![stmt],
        inner: None,
        params: vec![],
    };
    Crate { span: sp(0, 30), inner: sp(0, 30), items: vec![item] }
}

#[test]
fn from_str_parses_every_category_name() {
    let cases = [
        ("any", NodeKind::Any),
        ("itemlike", NodeKind::ItemLike),
        ("item", NodeKind::Item),
        ("trait_item", NodeKind::TraitItem),
        ("impl_item", NodeKind::ImplItem),
        ("foreign_item", NodeKind::ForeignItem),
        ("stmt", NodeKind::Stmt),
        ("expr", NodeKind::Expr),
        ("pat", NodeKind::Pat),
        ("ty", NodeKind::Ty),
        ("arg", NodeKind::Arg),
    ];
    for (name, kind) in cases {
        assert_eq!(NodeKind::from_str(name), Ok(kind));
        assert_eq!(kind.as_str(), name);
    }
}

#[test]
fn unknown_category_name_is_rejected() {
    assert_eq!(NodeKind::from_str("bogus"), Err(PickError::UnknownCategory));
    assert_eq!(NodeKind::from_str(""), Err(PickError::UnknownCategory));
    assert_eq!(NodeKind::from_str("Item"), Err(PickError::UnknownCategory));
}

#[test]
fn includes_relation() {
    let concrete = [
        NodeKind::Item,
        NodeKind::TraitItem,
        NodeKind::ImplItem,
        NodeKind::ForeignItem,
        NodeKind::Stmt,
        NodeKind::Expr,
        NodeKind::Pat,
        NodeKind::Ty,
        NodeKind::Arg,
    ];
    let itemlike = [
        NodeKind::Item,
        NodeKind::TraitItem,
        NodeKind::ImplItem,
        NodeKind::ForeignItem,
    ];
    for c in concrete {
        assert!(NodeKind::Any.includes(c));
        assert_eq!(NodeKind::ItemLike.includes(c), itemlike.contains(&c));
        for d in concrete {
            assert_eq!(c.includes(d), c == d);
        }
    }
}

#[test]
fn at_loc_resolves_through_the_source_map() {
    let k = simple_crate();
    let map = map_one_file();
    // Line 1, column 6 is byte offset 6: inside the expression.
    assert_eq!(
        pick_node_at_loc(&k, &map, NodeKind::Expr, "main.rs", 1, 6),
        Ok(Some(NodeInfo { id: 3, span: sp(5, 8) }))
    );
    // Line 3, column 5 is byte offset 25: only the root fallback answers.
    assert_eq!(
        pick_node_at_loc(&k, &map, NodeKind::Any, "main.rs", 3, 5),
        Ok(Some(NodeInfo { id: 0, span: sp(0, 30) }))
    );
}

#[test]
fn unknown_file_is_rejected() {
    let k = simple_crate();
    let map = map_one_file();
    assert_eq!(
        pick_node_at_loc(&k, &map, NodeKind::Any, "other.rs", 1, 0),
        Err(PickError::UnknownFile)
    );
}

#[test]
fn line_zero_is_rejected() {
    let k = simple_crate();
    let map = map_one_file();
    assert_eq!(
        pick_node_at_loc(&k, &map, NodeKind::Any, "main.rs", 0, 0),
        Err(PickError::LineOutOfRange)
    );
}

#[test]
fn line_past_the_file_is_rejected() {
    let k = simple_crate();
    let map = map_one_file();
    assert_eq!(
        pick_node_at_loc(&k, &map, NodeKind::Any, "main.rs", 4, 0),
        Err(PickError::LineOutOfRange)
    );
}

#[test]
fn column_past_the_line_is_rejected() {
    let k = simple_crate();
    let map = map_one_file();
    // Each line is ten bytes long, so column 10 is out of range.
    assert_eq!(
        pick_node_at_loc(&k, &map, NodeKind::Any, "main.rs", 2, 10),
        Err(PickError::ColumnOutOfRange)
    );
    assert_eq!(
        pick_node_at_loc(&k, &map, NodeKind::Any, "main.rs", 2, 9),
        Ok(Some(NodeInfo { id: 0, span: sp(0, 30) }))
    );
}

#[test]
fn command_renders_one_based_coordinates() {
    // A statement spanning [5,15): from line 1 column 6 to line 2 column 5.
    let stmt = leaf(NodeCat::Stmt, 7, sp(5, 15));
    let k = Crate { span: sp(0, 30), inner: sp(0, 30), items: vec![stmt] };
    let map = map_one_file();
    assert!(crate_mapped_check(&k, &map));
    assert_eq!(
        pick_node_command(&k, &map, "stmt", "main.rs", 1, 7),
        Ok(CommandOutcome::Found {
            node_id: 7,
            lo_line: 1,
            lo_col: 6,
            hi_line: 2,
            hi_col: 5,
        })
    );
}

#[test]
fn command_reports_not_found() {
    // The tree's extent is only [0,10): a position on line 2 is in the
    // map but outside the tree, so nothing matches.
    let stmt = leaf(NodeCat::Stmt, 7, sp(2, 8));
    let k = Crate { span: sp(0, 10), inner: sp(0, 10), items: vec![stmt] };
    let map = map_one_file();
    assert!(crate_mapped_check(&k, &map));
    assert_eq!(
        pick_node_command(&k, &map, "stmt", "main.rs", 2, 5),
        Ok(CommandOutcome::NotFound)
    );
}

#[test]
fn command_rejects_unknown_category_first() {
    let k = simple_crate();
    let map = map_one_file();
    // Even with an out-of-range position, the category name is checked
    // first.
    assert_eq!(
        pick_node_command(&k, &map, "bogus", "main.rs", 99, 99),
        Err(PickError::UnknownCategory)
    );
}

#[test]
fn command_passes_position_errors_through() {
    let k = simple_crate();
    let map = map_one_file();
    assert_eq!(
        pick_node_command(&k, &map, "any", "other.rs", 1, 0),
        Err(PickError::UnknownFile)
    );
    assert_eq!(
        pick_node_command(&k, &map, "any", "main.rs", 0, 0),
        Err(PickError::LineOutOfRange)
    );
    assert_eq!(
        pick_node_command(&k, &map, "any", "main.rs", 2, 10),
        Err(PickError::ColumnOutOfRange)
    );
}

#[test]
fn command_renders_parameter_spans() {
    // A parameter `pat : ty` with the pattern at [10,13) and the type at
    // [16,20): the union span [10,20) covers line 2, columns 1 through 10.
    let item = Node {
        cat: NodeCat::Item,
        id: 40,
        span: sp(0, 30),
        children: vec![],
        inner: None,
        params: vec![Param { id: 41, pat_span: sp(10, 13), ty_span: sp(16, 20) }],
    };
    let k = Crate { span: sp(0, 30), inner: sp(0, 30), items: vec![item] };
    let map = map_one_file();
    assert!(crate_mapped_check(&k, &map));
    assert_eq!(
        pick_node_command(&k, &map, "arg", "main.rs", 2, 4),
        Ok(CommandOutcome::Found {
            node_id: 41,
            lo_line: 2,
            lo_col: 1,
            hi_line: 2,
            hi_col: 10,
        })
    );
}

#[test]
fn source_map_well_formedness_check() {
    let good = map_one_file();
    assert!(good.well_formed());
    let bad = SourceMap {
        files: vec![SourceFile { name: String::from("main.rs"), lines: vec![(10, 0)] }],
    };
    assert!(!bad.well_formed());
}

#[test]
fn crate_mapped_check_spots_unrenderable_spans() {
    let map = map_one_file();
    // An empty span can never be rendered.
    let empty = leaf(NodeCat::Expr, 9, sp(5, 5));
    let k = Crate { span: sp(0, 30), inner: sp(0, 30), items: vec![empty] };
    assert!(!crate_mapped_check(&k, &map));
    // A span past the mapped source cannot be rendered either.
    let outside = leaf(NodeCat::Expr, 9, sp(25, 40));
    let k2 = Crate { span: sp(0, 30), inner: sp(0, 30), items: vec![outside] };
    assert!(!crate_mapped_check(&k2, &map));
    let fine = leaf(NodeCat::Expr, 9, sp(5, 8));
    let k3 = Crate { span: sp(0, 30), inner: sp(0, 30), items: vec![fine] };
    assert!(crate_mapped_check(&k3, &map));
}

#[test]
fn error_messages_name_the_condition() {
    assert_eq!(PickError::UnknownCategory.message(), "unknown node category");
    assert!(PickError::UnknownFile.message().contains("file"));
    assert!(PickError::LineOutOfRange.message().contains("line"));
    assert!(PickError::ColumnOutOfRange.message().contains("column"));
}
