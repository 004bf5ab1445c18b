//! The caller-input errors a query can fail with.

use vstd::prelude::*;

verus! {

/// Why a query was rejected before any traversal result could be produced.
/// All four describe bad caller input; an empty resolution result is a
/// normal outcome, not an error.
#[derive(Clone, Copy, PartialEq, Eq, Structural, Debug)]
pub enum PickError {
    /// The category name matches none of the recognized names.
    UnknownCategory,
    /// The file has no entry in the source map.
    UnknownFile,
    /// The line number is zero or exceeds the file's line count.
    LineOutOfRange,
    /// The column is at or beyond the line's length in bytes.
    ColumnOutOfRange,
}

/// The fixed description text for each error.
pub open spec fn error_message(e: PickError) -> Seq<char> {
    match e {
        PickError::UnknownCategory => "unknown node category"@,
        PickError::UnknownFile => "target position lies in an unknown file"@,
        PickError::LineOutOfRange => "line is outside the bounds of the file"@,
        PickError::ColumnOutOfRange => "column is outside the bounds of the line"@,
    }
}

impl PickError {
    /// A short description of the error.
    pub fn message(&self) -> (r: &'static str)
        ensures
            r@ == error_message(*self),
    {
        match *self {
            PickError::UnknownCategory => "unknown node category",
            PickError::UnknownFile => "target position lies in an unknown file",
            PickError::LineOutOfRange => "line is outside the bounds of the file",
            PickError::ColumnOutOfRange => "column is outside the bounds of the line",
        }
    }
}

} // verus!
