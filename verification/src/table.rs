use vstd::prelude::*;
use crate::cell::{CellValue, CellValueV, RawCell, spec_coerce};
use crate::range::Range;
use crate::sheet::{coerce_row, row_view};

verus! {

/// A named view bound to a sheet region, with the table's ordered column
/// headers and the body of the region (headers excluded). Only the
/// table-capable format produces these, lazily, after table discovery.
pub struct CalamineTable {
    name: String,
    sheet: String,
    columns: Vec<String>,
    range: Range<RawCell>,
}

impl CalamineTable {
    pub closed spec fn spec_name(self) -> Seq<char> {
        self.name@
    }

    pub closed spec fn spec_sheet(self) -> Seq<char> {
        self.sheet@
    }

    pub closed spec fn spec_columns(self) -> Seq<String> {
        self.columns@
    }

    pub closed spec fn spec_range(self) -> Range<RawCell> {
        self.range
    }

    pub fn new(name: String, sheet_name: String, columns: Vec<String>, range: Range<RawCell>) -> (r:
        Self)
        ensures
            r.spec_name() == name@,
            r.spec_sheet() == sheet_name@,
            r.spec_columns() == columns@,
            r.spec_range() == range,
    {
        CalamineTable { name, sheet: sheet_name, columns, range }
    }

    pub fn name(&self) -> (r: &String)
        ensures
            r@ == self.spec_name(),
    {
        &self.name
    }

    /// Name of the sheet this table is bound to.
    pub fn sheet(&self) -> (r: &String)
        ensures
            r@ == self.spec_sheet(),
    {
        &self.sheet
    }

    /// The ordered column headers, in declaration order.
    pub fn columns(&self) -> (r: &Vec<String>)
        ensures
            r@ == self.spec_columns(),
    {
        &self.columns
    }

    pub fn height(&self) -> (r: usize)
        ensures
            r == self.spec_range().spec_height(),
    {
        self.range.height()
    }

    pub fn width(&self) -> (r: usize)
        ensures
            r == self.spec_range().spec_width(),
    {
        self.range.width()
    }

    pub fn start(&self) -> (r: Option<(u32, u32)>)
        ensures
            r == self.spec_range().spec_start(),
    {
        self.range.start()
    }

    pub fn end(&self) -> (r: Option<(u32, u32)>)
        ensures
            r == self.spec_range().spec_end(),
    {
        self.range.end()
    }

    /// Materialize the full body, row-major, each cell coerced to its
    /// canonical value.
    pub fn to_list(&self) -> (r: Vec<Vec<CellValue>>)
        ensures
            r@.len() == self.spec_range().spec_height(),
            forall|i: int|
                0 <= i < r@.len() ==> row_view(#[trigger] r@[i]) == Seq::new(
                    self.spec_range().spec_width() as nat,
                    |j: int| spec_coerce(self.spec_range().grid()[i][j]@),
                ),
    {
        let mut out: Vec<Vec<CellValue>> = Vec::new();
        let h = self.range.height();
        let mut i: usize = 0;
        while i < h
            invariant
                h == self.spec_range().spec_height(),
                i <= h,
                out@.len() == i,
                forall|k: int|
                    0 <= k < i ==> row_view(#[trigger] out@[k]) == Seq::new(
                        self.spec_range().spec_width() as nat,
                        |j: int| spec_coerce(self.spec_range().grid()[k][j]@),
                    ),
            decreases h - i,
        {
            let row = coerce_row(self.range.row(i));
            proof {
                assert(row_view(row) =~= Seq::new(
                    self.spec_range().spec_width() as nat,
                    |j: int| spec_coerce(self.spec_range().grid()[i as int][j]@),
                ));
            }
            out.push(row);
            i += 1;
        }
        out
    }
}

} // verus!
