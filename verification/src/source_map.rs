//! The source map at its interface: per-file line bounds over the
//! concatenated source, lookup of a file by name, and mapping a byte
//! offset back to a line and column.

use vstd::prelude::*;
use crate::text::str_eq;

verus! {

/// One file of the source map: its name and the byte bounds of each of its
/// lines, as half-open ranges over the concatenated source.
#[derive(Debug)]
pub struct SourceFile {
    /// The name the file is looked up by.
    pub name: String,
    /// The `(start, end)` byte bounds of each line, in order.
    pub lines: Vec<(u32, u32)>,
}

/// The source map: every file the tree was parsed from.
#[derive(Debug)]
pub struct SourceMap {
    /// The files, in registration order.
    pub files: Vec<SourceFile>,
}

/// Well-formedness of one file: no line ends before it starts.
pub open spec fn file_wf(f: SourceFile) -> bool {
    forall|i: int| 0 <= i < f.lines@.len() ==> (#[trigger] f.lines@[i]).0 <= f.lines@[i].1
}

/// Well-formedness of the map: every file is well-formed.
pub open spec fn map_wf(m: SourceMap) -> bool {
    forall|i: int| 0 <= i < m.files@.len() ==> file_wf(#[trigger] m.files@[i])
}

/// The index of the first file of `files[i..]` named `name`.
pub open spec fn file_index_for(files: Seq<SourceFile>, name: Seq<char>, i: int) -> Option<int>
    decreases files.len() - i,
{
    if 0 <= i < files.len() {
        if files[i].name@ == name {
            Some(i)
        } else {
            file_index_for(files, name, i + 1)
        }
    } else {
        None
    }
}

/// The index of the first line of `lines[i..]` containing the offset.
pub open spec fn line_index_for(lines: Seq<(u32, u32)>, off: u32, i: int) -> Option<int>
    decreases lines.len() - i,
{
    if 0 <= i < lines.len() {
        if lines[i].0 <= off < lines[i].1 {
            Some(i)
        } else {
            line_index_for(lines, off, i + 1)
        }
    } else {
        None
    }
}

/// The `(line index, byte column)` of an offset, both zero-based, found in
/// the first file of `files[i..]` one of whose lines contains the offset.
pub open spec fn loc_for(files: Seq<SourceFile>, off: u32, i: int) -> Option<(int, int)>
    decreases files.len() - i,
{
    if 0 <= i < files.len() {
        match line_index_for(files[i].lines@, off, 0) {
            Some(l) => Some((l, off - files[i].lines@[l].0)),
            None => loc_for(files, off, i + 1),
        }
    } else {
        None
    }
}

/// Whether some line of some file of the map contains the offset.
pub open spec fn offset_mapped(m: SourceMap, off: u32) -> bool {
    loc_for(m.files@, off, 0) is Some
}

impl SourceMap {
    /// Whether every file of the map is well-formed.
    pub fn well_formed(&self) -> (r: bool)
        ensures
            r == map_wf(*self),
    {
        let nfiles = self.files.len();
        let mut i: usize = 0;
        while i < nfiles
            invariant
                nfiles == self.files@.len(),
                0 <= i <= nfiles,
                forall|j: int| 0 <= j < i ==> file_wf(#[trigger] self.files@[j]),
            decreases nfiles - i,
        {
            let f = &self.files[i];
            let nlines = f.lines.len();
            let mut l: usize = 0;
            while l < nlines
                invariant
                    nfiles == self.files@.len(),
                    0 <= i < nfiles,
                    *f == self.files@[i as int],
                    forall|j: int| 0 <= j < i ==> file_wf(#[trigger] self.files@[j]),
                    nlines == f.lines@.len(),
                    0 <= l <= nlines,
                    forall|j: int| 0 <= j < l ==> (#[trigger] f.lines@[j]).0 <= f.lines@[j].1,
                decreases nlines - l,
            {
                let b = f.lines[l];
                if b.0 > b.1 {
                    assert(!file_wf(self.files@[i as int]));
                    return false;
                }
                l = l + 1;
            }
            i = i + 1;
        }
        true
    }

    /// The index of the first file named `name`, if any.
    pub fn lookup_file(&self, name: &str) -> (r: Option<usize>)
        ensures
            r is Some <==> file_index_for(self.files@, name@, 0) is Some,
            r matches Some(i) ==> i < self.files@.len() && file_index_for(self.files@, name@, 0)
                == Some(i as int),
    {
        let nfiles = self.files.len();
        let mut i: usize = 0;
        while i < nfiles
            invariant
                nfiles == self.files@.len(),
                0 <= i <= nfiles,
                file_index_for(self.files@, name@, 0) == file_index_for(
                    self.files@,
                    name@,
                    i as int,
                ),
            decreases nfiles - i,
        {
            if str_eq(self.files[i].name.as_str(), name) {
                return Some(i);
            }
            i = i + 1;
        }
        None
    }

    /// The zero-based `(line index, byte column)` of an offset, within the
    /// first file one of whose lines contains it.
    pub fn lookup_position(&self, off: u32) -> (r: Option<(usize, u32)>)
        ensures
            r is Some <==> loc_for(self.files@, off, 0) is Some,
            r matches Some(lc) ==> loc_for(self.files@, off, 0) == Some(
                (lc.0 as int, lc.1 as int),
            ) && lc.0 < usize::MAX,
    {
        let nfiles = self.files.len();
        let mut i: usize = 0;
        while i < nfiles
            invariant
                nfiles == self.files@.len(),
                0 <= i <= nfiles,
                loc_for(self.files@, off, 0) == loc_for(self.files@, off, i as int),
            decreases nfiles - i,
        {
            let f = &self.files[i];
            let nlines = f.lines.len();
            let mut l: usize = 0;
            while l < nlines
                invariant
                    nfiles == self.files@.len(),
                    0 <= i < nfiles,
                    *f == self.files@[i as int],
                    loc_for(self.files@, off, 0) == loc_for(self.files@, off, i as int),
                    nlines == f.lines@.len(),
                    0 <= l <= nlines,
                    line_index_for(f.lines@, off, 0) == line_index_for(f.lines@, off, l as int),
                decreases nlines - l,
            {
                let b = f.lines[l];
                if b.0 <= off && off < b.1 {
                    proof {
                        assert(b == f.lines@[l as int]);
                        assert(line_index_for(f.lines@, off, l as int) == Some(l as int));
                        assert(line_index_for(f.lines@, off, 0) == Some(l as int));
                        assert(*f == self.files@[i as int]);
                        assert(loc_for(self.files@, off, i as int) == Some(
                            (l as int, off - b.0 as int),
                        ));
                    }
                    return Some((l, off - b.0));
                }
                l = l + 1;
            }
            i = i + 1;
        }
        None
    }
}

} // verus!
