//! The query surface: turning a (file, line, column) request into a byte
//! offset, resolving at that offset, and the command that renders the
//! chosen span back to display coordinates.

use vstd::prelude::*;
use vstd::pervasive::unreached;
use crate::error::PickError;
use crate::kind::{kind_for_name, NodeKind};
use crate::laws::lemma_forest_sound;
use crate::pick::{
    own_hit, param_hit, param_info, params_hit_from, pick_in_forest, pick_node, pick_node_spec,
};
use crate::source_map::{file_wf, file_index_for, loc_for, map_wf, offset_mapped, SourceMap};
use crate::span::{span_union, Span};
use crate::tree::{forest_mem, tree_mem, Crate, Node, NodeInfo, Param};

verus! {

/// What mapping (file, line, column) to an offset and resolving there returns:
/// `UnknownFile` when no file of the map has that name, `LineOutOfRange`
/// when the one-based line is zero or exceeds the file's line count,
/// `ColumnOutOfRange` when the zero-based byte column is at or beyond the
/// line's length, and otherwise the resolution at the line's starting
/// offset plus the column.
pub open spec fn at_loc_spec(
    krate: Crate,
    map: SourceMap,
    kind: NodeKind,
    file: Seq<char>,
    line: u32,
    col: u32,
) -> Result<Option<NodeInfo>, PickError> {
    match file_index_for(map.files@, file, 0) {
        None => Err(PickError::UnknownFile),
        Some(fi) => {
            let f = map.files@[fi];
            if line == 0 || line - 1 >= f.lines@.len() {
                Err(PickError::LineOutOfRange)
            } else {
                let b = f.lines@[line - 1];
                if col >= b.1 - b.0 {
                    Err(PickError::ColumnOutOfRange)
                } else {
                    Ok(pick_node_spec(krate, kind, (b.0 + col) as u32))
                }
            }
        },
    }
}

/// Maps a (file, one-based line, zero-based byte column) request to a
/// byte offset through the source map and resolves there. Columns count
/// bytes, not characters: a documented limitation for multi-byte text.
pub fn pick_node_at_loc(
    krate: &Crate,
    map: &SourceMap,
    kind: NodeKind,
    file: &str,
    line: u32,
    col: u32,
) -> (r: Result<Option<NodeInfo>, PickError>)
    requires
        map_wf(*map),
    ensures
        r == at_loc_spec(*krate, *map, kind, file@, line, col),
{
    let fi = match map.lookup_file(file) {
        Some(i) => i,
        None => {
            return Err(PickError::UnknownFile);
        },
    };
    let f = &map.files[fi];
    if line == 0 {
        return Err(PickError::LineOutOfRange);
    }
    let li = (line - 1) as usize;
    if li >= f.lines.len() {
        return Err(PickError::LineOutOfRange);
    }
    let b = f.lines[li];
    proof {
        assert(file_wf(map.files@[fi as int]));
        assert(b.0 <= b.1);
    }
    let line_len = b.1 - b.0;
    if col >= line_len {
        return Err(PickError::ColumnOutOfRange);
    }
    let pos = b.0 + col;
    Ok(pick_node(krate, kind, pos))
}

/// A span the source map can render: nonempty, with both its first and its
/// last byte on some line of some file.
pub open spec fn span_mapped(map: SourceMap, s: Span) -> bool {
    &&& s.lo < s.hi
    &&& offset_mapped(map, s.lo)
    &&& offset_mapped(map, (s.hi - 1) as u32)
}

/// Every span the resolver could copy out of this subtree is renderable:
/// the node's own span, and both sides of every parameter.
pub open spec fn node_mapped(map: SourceMap, n: Node) -> bool
    decreases n,
{
    &&& span_mapped(map, n.span)
    &&& forall|j: int|
        0 <= j < n.params@.len() ==> span_mapped(map, (#[trigger] n.params@[j]).pat_span)
            && span_mapped(map, n.params@[j].ty_span)
    &&& forall|i: int|
        0 <= i < n.children@.len() ==> node_mapped(map, #[trigger] n.children@[i])
}

/// Every span the resolver could return for this tree is renderable,
/// including the root's own.
pub open spec fn crate_mapped(map: SourceMap, krate: Crate) -> bool {
    &&& span_mapped(map, krate.span)
    &&& forall|i: int|
        0 <= i < krate.items@.len() ==> node_mapped(map, #[trigger] krate.items@[i])
}

/// The union of two renderable spans is renderable.
proof fn lemma_union_mapped(map: SourceMap, a: Span, b: Span)
    requires
        span_mapped(map, a),
        span_mapped(map, b),
    ensures
        span_mapped(map, span_union(a, b)),
{
}

/// A member of a renderable tree is itself renderable.
proof fn lemma_tree_mem_mapped(map: SourceMap, m: Node, n: Node)
    requires
        node_mapped(map, n),
        tree_mem(m, n),
    ensures
        node_mapped(map, m),
    decreases n,
{
    if m != n {
        let i = choose|i: int|
            0 <= i < n.children@.len() && tree_mem(m, n.children@[i]);
        lemma_tree_mem_mapped(map, m, n.children@[i]);
    }
}

/// A parameter match returns the matching parameter's synthesized node.
proof fn lemma_params_hit_sound(target: u32, ps: Seq<Param>, j: int, r: NodeInfo)
    requires
        params_hit_from(target, ps, j) == Some(r),
    ensures
        exists|i: int|
            j <= i < ps.len() && param_hit(target, #[trigger] ps[i]) && r == param_info(ps[i]),
    decreases ps.len() - j,
{
    if param_hit(target, ps[j]) {
        assert(param_hit(target, ps[j]) && r == param_info(ps[j]));
    } else {
        lemma_params_hit_sound(target, ps, j + 1, r);
    }
}

/// Whatever a renderable node records by its own rules has a renderable
/// span.
proof fn lemma_own_hit_mapped(map: SourceMap, filter: NodeKind, target: u32, m: Node, r: NodeInfo)
    requires
        node_mapped(map, m),
        own_hit(filter, target, m) == Some(r),
    ensures
        span_mapped(map, r.span),
{
    if crate::kind::kind_includes(filter, NodeKind::Arg) && params_hit_from(
        target,
        m.params@,
        0,
    ) is Some {
        lemma_params_hit_sound(target, m.params@, 0, r);
        let i = choose|i: int|
            0 <= i < m.params@.len() && param_hit(target, #[trigger] m.params@[i]) && r
                == param_info(m.params@[i]);
        lemma_union_mapped(map, m.params@[i].pat_span, m.params@[i].ty_span);
    }
}

/// Whatever resolution returns for a renderable tree has a renderable
/// span: the source map can always display the result.
pub proof fn lemma_pick_mapped(
    map: SourceMap,
    krate: Crate,
    filter: NodeKind,
    pos: u32,
    r: NodeInfo,
)
    requires
        crate_mapped(map, krate),
        pick_node_spec(krate, filter, pos) == Some(r),
    ensures
        span_mapped(map, r.span),
{
    if pick_in_forest(filter, pos, krate.items@) is Some {
        lemma_forest_sound(filter, pos, krate.items@, r);
        let m = choose|m: Node|
            #[trigger] forest_mem(m, krate.items@) && own_hit(filter, pos, m) == Some(r);
        let i = choose|i: int|
            0 <= i < krate.items@.len() && tree_mem(m, #[trigger] krate.items@[i]);
        lemma_tree_mem_mapped(map, m, krate.items@[i]);
        lemma_own_hit_mapped(map, filter, pos, m, r);
    }
}

/// Whether every span the resolver could return for this subtree is
/// renderable by the map.
fn node_mapped_check(map: &SourceMap, n: &Node) -> (r: bool)
    ensures
        r == node_mapped(*map, *n),
    decreases *n,
{
    if !span_mapped_check(map, &n.span) {
        return false;
    }
    let nparams = n.params.len();
    let mut j: usize = 0;
    while j < nparams
        invariant
            nparams == n.params@.len(),
            0 <= j <= nparams,
            span_mapped(*map, n.span),
            forall|t: int|
                0 <= t < j ==> span_mapped(*map, (#[trigger] n.params@[t]).pat_span)
                    && span_mapped(*map, n.params@[t].ty_span),
        decreases nparams - j,
    {
        let p = &n.params[j];
        if !span_mapped_check(map, &p.pat_span) || !span_mapped_check(map, &p.ty_span) {
            return false;
        }
        j = j + 1;
    }
    let nchildren = n.children.len();
    let mut i: usize = 0;
    while i < nchildren
        invariant
            nchildren == n.children@.len(),
            0 <= i <= nchildren,
            span_mapped(*map, n.span),
            forall|t: int|
                0 <= t < n.params@.len() ==> span_mapped(*map, (#[trigger] n.params@[t]).pat_span)
                    && span_mapped(*map, n.params@[t].ty_span),
            forall|t: int| 0 <= t < i ==> node_mapped(*map, #[trigger] n.children@[t]),
        decreases nchildren - i,
    {
        proof {
            assert(decreases_to!(*n => n.children@[i as int]));
        }
        if !node_mapped_check(map, &n.children[i]) {
            return false;
        }
        i = i + 1;
    }
    true
}

/// Whether the map can render one span: nonempty, both ends on some line.
fn span_mapped_check(map: &SourceMap, s: &Span) -> (r: bool)
    ensures
        r == span_mapped(*map, *s),
{
    if s.lo >= s.hi {
        return false;
    }
    if map.lookup_position(s.lo).is_none() {
        return false;
    }
    map.lookup_position(s.hi - 1).is_some()
}

/// Whether the map can render every span the resolver could return for
/// this tree. Callers of [`pick_node_command`] may establish its
/// precondition with this check.
pub fn crate_mapped_check(krate: &Crate, map: &SourceMap) -> (r: bool)
    ensures
        r == crate_mapped(*map, *krate),
{
    if !span_mapped_check(map, &krate.span) {
        return false;
    }
    let nitems = krate.items.len();
    let mut i: usize = 0;
    while i < nitems
        invariant
            nitems == krate.items@.len(),
            0 <= i <= nitems,
            span_mapped(*map, krate.span),
            forall|t: int| 0 <= t < i ==> node_mapped(*map, #[trigger] krate.items@[t]),
        decreases nitems - i,
    {
        if !node_mapped_check(map, &krate.items[i]) {
            return false;
        }
        i = i + 1;
    }
    true
}

/// What one resolution query reports back: either the chosen node's
/// identity with its span rendered as one-based (line, column) pairs —
/// the end taken from the last byte of the half-open span — or the fact
/// that nothing matched.
#[derive(Clone, Copy, PartialEq, Eq, Structural, Debug)]
pub enum CommandOutcome {
    /// A node was chosen.
    Found {
        /// The chosen node's identity.
        node_id: u32,
        /// One-based line of the span's first byte.
        lo_line: u64,
        /// One-based column of the span's first byte.
        lo_col: u64,
        /// One-based line of the span's last byte.
        hi_line: u64,
        /// One-based column of the span's last byte.
        hi_col: u64,
    },
    /// No node of the requested category contains the position.
    NotFound,
}

/// One whole query: parses the category name, maps the position to a
/// byte offset, resolves, and renders the chosen span back to one-based display
/// coordinates through the source map.
pub fn pick_node_command(
    krate: &Crate,
    map: &SourceMap,
    kind_name: &str,
    file: &str,
    line: u32,
    col: u32,
) -> (r: Result<CommandOutcome, PickError>)
    requires
        map_wf(*map),
        crate_mapped(*map, *krate),
    ensures
        kind_for_name(kind_name@) is None ==> r == Err::<CommandOutcome, PickError>(
            PickError::UnknownCategory,
        ),
        kind_for_name(kind_name@) matches Some(kind) ==> match at_loc_spec(
            *krate,
            *map,
            kind,
            file@,
            line,
            col,
        ) {
            Err(e) => r == Err::<CommandOutcome, PickError>(e),
            Ok(None) => r == Ok::<CommandOutcome, PickError>(CommandOutcome::NotFound),
            Ok(Some(info)) => {
                let lo = loc_for(map.files@, info.span.lo, 0);
                let hi = loc_for(map.files@, (info.span.hi - 1) as u32, 0);
                &&& lo is Some
                &&& hi is Some
                &&& r matches Ok(out)
                &&& out matches CommandOutcome::Found { node_id, lo_line, lo_col, hi_line, hi_col }
                &&& node_id == info.id
                &&& lo_line == lo->Some_0.0 + 1
                &&& lo_col == lo->Some_0.1 + 1
                &&& hi_line == hi->Some_0.0 + 1
                &&& hi_col == hi->Some_0.1 + 1
            },
        },
{
    let kind = match NodeKind::from_str(kind_name) {
        Ok(k) => k,
        Err(e) => {
            return Err(e);
        },
    };
    let found = match pick_node_at_loc(krate, map, kind, file, line, col) {
        Ok(v) => v,
        Err(e) => {
            return Err(e);
        },
    };
    let info = match found {
        Some(info) => info,
        None => {
            return Ok(CommandOutcome::NotFound);
        },
    };
    proof {
        let fi = file_index_for(map.files@, file@, 0)->Some_0;
        let b = map.files@[fi].lines@[line - 1];
        let pos = (b.0 + col) as u32;
        assert(pick_node_spec(*krate, kind, pos) == Some(info));
        lemma_pick_mapped(*map, *krate, kind, pos, info);
    }
    let lo_loc = match map.lookup_position(info.span.lo) {
        Some(lc) => lc,
        None => unreached(),
    };
    let hi_loc = match map.lookup_position(info.span.hi - 1) {
        Some(lc) => lc,
        None => unreached(),
    };
    Ok(
        CommandOutcome::Found {
            node_id: info.id,
            lo_line: lo_loc.0 as u64 + 1,
            lo_col: lo_loc.1 as u64 + 1,
            hi_line: hi_loc.0 as u64 + 1,
            hi_col: hi_loc.1 as u64 + 1,
        },
    )
}

} // verus!
