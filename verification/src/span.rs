//! Byte spans tagged with a hygiene context.

use vstd::prelude::*;

verus! {

/// A half-open byte range `[lo, hi)` over the concatenated source, tagged
/// with the hygiene context that produced it. Two spans are adjacent in
/// literal source only when their contexts agree.
#[derive(Clone, Copy, PartialEq, Eq, Structural, Debug)]
pub struct Span {
    /// First byte covered by the span.
    pub lo: u32,
    /// First byte past the end of the span.
    pub hi: u32,
    /// Hygiene context: which macro expansion (if any) produced this text.
    pub ctxt: u32,
}

/// A span contains a point `p` iff `lo <= p < hi`.
pub open spec fn span_contains(s: Span, p: u32) -> bool {
    s.lo <= p < s.hi
}

/// The region strictly between two spans, when one ends before the other
/// begins; overlapping or touching spans leave no gap. The region is only
/// literal source punctuation when the two contexts agree, which callers
/// must check separately.
pub open spec fn gap_contains(a: Span, b: Span, p: u32) -> bool {
    if a.hi <= b.lo {
        a.hi <= p < b.lo
    } else if b.hi <= a.lo {
        b.hi <= p < a.lo
    } else {
        false
    }
}

/// The union of two spans: the lower of the two starts to the higher of the
/// two ends. The context is taken from the first span.
pub open spec fn span_union(a: Span, b: Span) -> Span {
    Span {
        lo: if a.lo <= b.lo { a.lo } else { b.lo },
        hi: if a.hi >= b.hi { a.hi } else { b.hi },
        ctxt: a.ctxt,
    }
}

impl Span {
    /// Whether this span contains the point `p`.
    pub fn contains(&self, p: u32) -> (r: bool)
        ensures
            r == span_contains(*self, p),
    {
        self.lo <= p && p < self.hi
    }

    /// The union of `self` and `other`, keeping `self`'s context.
    pub fn to(&self, other: &Span) -> (r: Span)
        ensures
            r == span_union(*self, *other),
    {
        Span {
            lo: if self.lo <= other.lo { self.lo } else { other.lo },
            hi: if self.hi >= other.hi { self.hi } else { other.hi },
            ctxt: self.ctxt,
        }
    }

    /// Whether the point `p` falls in the gap between `self` and `other`.
    pub fn gap_to_contains(&self, other: &Span, p: u32) -> (r: bool)
        ensures
            r == gap_contains(*self, *other, p),
    {
        if self.hi <= other.lo {
            self.hi <= p && p < other.lo
        } else if other.hi <= self.lo {
            other.hi <= p && p < self.lo
        } else {
            false
        }
    }
}

} // verus!
