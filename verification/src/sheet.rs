use vstd::prelude::*;
use crate::cell::{CellValue, CellValueV, RawCell, coerce, spec_coerce};
use crate::errors::Error;
use crate::range::Range;

verus! {

/// What kind of sheet an entry of the workbook's sheet list is.
#[derive(Debug, Clone, Copy, PartialEq, Eq, Structural)]
pub enum SheetTypeEnum {
    WorkSheet,
    DialogSheet,
    MacroSheet,
    ChartSheet,
    /// A VBA module.
    Vba,
}

/// How a sheet is shown in the workbook's user interface.
#[derive(Debug, Clone, Copy, PartialEq, Eq, Structural)]
pub enum SheetVisibleEnum {
    Visible,
    Hidden,
    /// Hidden so that the user interface cannot re-show it; only the Excel
    /// formats know this state.
    VeryHidden,
}

/// Structural, per-sheet facts the workbook captures eagerly at open time.
#[derive(Debug, Clone, PartialEq)]
pub struct SheetMetadata {
    name: String,
    typ: SheetTypeEnum,
    visible: SheetVisibleEnum,
}

impl SheetMetadata {
    pub closed spec fn spec_name(self) -> Seq<char> {
        self.name@
    }

    pub closed spec fn spec_typ(self) -> SheetTypeEnum {
        self.typ
    }

    pub closed spec fn spec_visible(self) -> SheetVisibleEnum {
        self.visible
    }

    pub fn new(name: String, typ: SheetTypeEnum, visible: SheetVisibleEnum) -> (r: Self)
        ensures
            r.spec_name() == name@,
            r.spec_typ() == typ,
            r.spec_visible() == visible,
    {
        SheetMetadata { name, typ, visible }
    }

    pub fn name(&self) -> (r: &String)
        ensures
            r@ == self.spec_name(),
    {
        &self.name
    }

    pub fn typ(&self) -> (r: SheetTypeEnum)
        ensures
            r == self.spec_typ(),
    {
        self.typ
    }

    pub fn visible(&self) -> (r: SheetVisibleEnum)
        ensures
            r == self.spec_visible(),
    {
        self.visible
    }
}

/// The view of one row of canonical values as a sequence of value images.
pub open spec fn row_view(row: Vec<CellValue>) -> Seq<CellValueV> {
    row@.map_values(|c: CellValue| c@)
}

/// The view of one row of formula text as a sequence of character sequences.
pub open spec fn formula_row_view(row: Vec<String>) -> Seq<Seq<char>> {
    row@.map_values(|s: String| s@)
}

/// Coerce every cell of one raw row.
pub(crate) fn coerce_row(row: &Vec<RawCell>) -> (r: Vec<CellValue>)
    ensures
        r@.len() == row@.len(),
        forall|j: int| 0 <= j < row@.len() ==> (#[trigger] r@[j])@ == spec_coerce(row@[j]@),
{
    let mut out: Vec<CellValue> = Vec::new();
    let n = row.len();
    let mut j: usize = 0;
    while j < n
        invariant
            n == row@.len(),
            j <= n,
            out@.len() == j,
            forall|k: int| 0 <= k < j ==> (#[trigger] out@[k])@ == spec_coerce(row@[k]@),
        decreases n - j,
    {
        out.push(coerce(&row[j]));
        j += 1;
    }
    out
}

/// A named, immutable view over one decoded cell grid, with optional
/// formula text and optional merged-cell geometry.
pub struct CalamineSheet {
    name: String,
    range: Range<RawCell>,
    formula_range: Option<Range<String>>,
    merged_cell_ranges: Option<Vec<((u32, u32), (u32, u32))>>,
}

impl CalamineSheet {
    pub closed spec fn spec_name(self) -> Seq<char> {
        self.name@
    }

    pub closed spec fn spec_range(self) -> Range<RawCell> {
        self.range
    }

    pub closed spec fn spec_formula_range(self) -> Option<Range<String>> {
        self.formula_range
    }

    pub closed spec fn spec_merged(self) -> Option<Seq<((u32, u32), (u32, u32))>> {
        match self.merged_cell_ranges {
            Some(v) => Some(v@),
            None => None,
        }
    }

    pub fn new(
        name: String,
        range: Range<RawCell>,
        formula_range: Option<Range<String>>,
        merged_cell_ranges: Option<Vec<((u32, u32), (u32, u32))>>,
    ) -> (r: Self)
        ensures
            r.spec_name() == name@,
            r.spec_range() == range,
            r.spec_formula_range() == formula_range,
            r.spec_merged() == (match merged_cell_ranges {
                Some(v) => Some(v@),
                None => None::<Seq<((u32, u32), (u32, u32))>>,
            }),
    {
        CalamineSheet { name, range, formula_range, merged_cell_ranges }
    }

    pub fn name(&self) -> (r: &String)
        ensures
            r@ == self.spec_name(),
    {
        &self.name
    }

    /// Number of rows of the used area.
    pub fn height(&self) -> (r: usize)
        ensures
            r == self.spec_range().spec_height(),
    {
        self.range.height()
    }

    /// Number of columns of the used area.
    pub fn width(&self) -> (r: usize)
        ensures
            r == self.spec_range().spec_width(),
    {
        self.range.width()
    }

    /// Absolute row of the last used cell, `0` for an empty sheet.
    pub fn total_height(&self) -> (r: u32)
        ensures
            r == (match self.spec_range().spec_end() {
                Some(e) => e.0,
                None => 0u32,
            }),
    {
        match self.range.end() {
            Some(e) => e.0,
            None => 0,
        }
    }

    /// Absolute column of the last used cell, `0` for an empty sheet.
    pub fn total_width(&self) -> (r: u32)
        ensures
            r == (match self.spec_range().spec_end() {
                Some(e) => e.1,
                None => 0u32,
            }),
    {
        match self.range.end() {
            Some(e) => e.1,
            None => 0,
        }
    }

    pub fn start(&self) -> (r: Option<(u32, u32)>)
        ensures
            r == self.spec_range().spec_start(),
    {
        self.range.start()
    }

    pub fn end(&self) -> (r: Option<(u32, u32)>)
        ensures
            r == self.spec_range().spec_end(),
    {
        self.range.end()
    }

    /// The cached merged-cell rectangles, `None` where the format has no
    /// notion of merges — absence is not an error.
    pub fn merged_cell_ranges(&self) -> (r: Option<Vec<((u32, u32), (u32, u32))>>)
        ensures
            r is Some <==> self.spec_merged() is Some,
            r matches Some(v) ==> Some(v@) == self.spec_merged(),
    {
        match &self.merged_cell_ranges {
            Some(v) => {
                let mut out: Vec<((u32, u32), (u32, u32))> = Vec::new();
                let n = v.len();
                let mut i: usize = 0;
                while i < n
                    invariant
                        n == v@.len(),
                        i <= n,
                        out@.len() == i,
                        forall|k: int| 0 <= k < i ==> out@[k] == v@[k],
                    decreases n - i,
                {
                    out.push(v[i]);
                    i += 1;
                }
                proof {
                    assert(out@ =~= v@);
                }
                Some(out)
            },
            None => None,
        }
    }

    /// What materializing the sheet yields: with `skip_empty_area` (or an
    /// origin start) the used rectangle only, coerced row-major; without it
    /// the grid is re-anchored at `(0, 0)` and positions before the used
    /// area hold empty values. At most `nrows` rows either way; with no
    /// `nrows` every row up to the used area's end.
    pub open spec fn spec_to_list(self, skip: bool, nrows: Option<u32>) -> Seq<Seq<CellValueV>> {
        let sr = self.spec_range().spec_start_row() as int;
        let sc = self.spec_range().spec_start_col() as int;
        let h = self.spec_range().spec_height();
        let w = self.spec_range().spec_width();
        let g = self.spec_range().grid();
        let n: int = match nrows {
            Some(k) => k as int,
            None => sr + h,
        };
        if h == 0 {
            Seq::empty()
        } else if skip || (sr == 0 && sc == 0) {
            Seq::new(
                (if n < h { n } else { h }) as nat,
                |i: int| Seq::new(w as nat, |j: int| spec_coerce(g[i][j]@)),
            )
        } else if n <= 0 {
            Seq::empty()
        } else {
            Seq::new(
                (if n < sr + h { n } else { sr + h }) as nat,
                |i: int|
                    Seq::new(
                        (sc + w) as nat,
                        |j: int|
                            if sr <= i && sc <= j {
                                spec_coerce(g[i - sr][j - sc]@)
                            } else {
                                CellValueV::Empty
                            },
                    ),
            )
        }
    }

    /// Materialize up to `nrows` rows of canonical values, honouring the
    /// trimming policy of [`CalamineSheet::spec_to_list`].
    pub fn to_list(&self, skip_empty_area: bool, nrows: Option<u32>) -> (r: Vec<Vec<CellValue>>)
        ensures
            r@.len() == self.spec_to_list(skip_empty_area, nrows).len(),
            forall|i: int|
                0 <= i < r@.len() ==> row_view(#[trigger] r@[i]) == self.spec_to_list(
                    skip_empty_area,
                    nrows,
                )[i],
    {
        let ghost target = self.spec_to_list(skip_empty_area, nrows);
        let mut out: Vec<Vec<CellValue>> = Vec::new();
        let h = self.range.height();
        let w = self.range.width();
        if h == 0 {
            return out;
        }
        let s = match self.range.start() {
            Some(p) => p,
            None => (0, 0),
        };
        let sr = s.0;
        let sc = s.1;
        let n64: u64 = match nrows {
            Some(k) => k as u64,
            None => sr as u64 + h as u64,
        };
        if skip_empty_area || (sr == 0 && sc == 0) {
            let count: usize = if n64 < h as u64 {
                n64 as usize
            } else {
                h
            };
            let mut i: usize = 0;
            while i < count
                invariant
                    count <= h,
                    h == self.spec_range().spec_height(),
                    w == self.spec_range().spec_width(),
                    h > 0,
                    skip_empty_area || (self.spec_range().spec_start_row() == 0
                        && self.spec_range().spec_start_col() == 0),
                    target == self.spec_to_list(skip_empty_area, nrows),
                    target.len() == count,
                    i <= count,
                    out@.len() == i,
                    forall|k: int| 0 <= k < i ==> row_view(#[trigger] out@[k]) == target[k],
                decreases count - i,
            {
                let row = coerce_row(self.range.row(i));
                proof {
                    assert(row_view(row) =~= target[i as int]);
                }
                out.push(row);
                i += 1;
            }
            out
        } else {
            if n64 == 0 {
                return out;
            }
            let total: u64 = sr as u64 + h as u64;
            let count: u64 = if n64 < total {
                n64
            } else {
                total
            };
            let mut i: u64 = 0;
            while i < count
                invariant
                    count <= sr as u64 + self.spec_range().spec_height(),
                    !self.spec_range().spec_is_empty(),
                    sr == self.spec_range().spec_start_row(),
                    sc == self.spec_range().spec_start_col(),
                    h == self.spec_range().spec_height(),
                    w == self.spec_range().spec_width(),
                    !skip_empty_area,
                    !(sr == 0 && sc == 0),
                    n64 > 0,
                    n64 == (match nrows {
                        Some(k) => k as int,
                        None => sr + h,
                    }),
                    count == (if n64 < sr as u64 + h as u64 {
                        n64 as int
                    } else {
                        sr + h
                    }),
                    target == self.spec_to_list(skip_empty_area, nrows),
                    target.len() == count,
                    i <= count,
                    out@.len() == i,
                    forall|k: int| 0 <= k < i ==> row_view(#[trigger] out@[k]) == target[k],
                decreases count - i,
            {
                let row = widened_row(&self.range, i);
                proof {
                    assert(row_view(row) =~= target[i as int]);
                }
                out.push(row);
                i += 1;
            }
            out
        }
    }

    /// With skipping (or no `nrows` cap beyond the data), the materialized
    /// grid has exactly the used area's dimensions, `end - start + 1`
    /// component-wise; without skipping and with a non-origin start it is
    /// anchored at `(0, 0)`, and every position before the used area holds
    /// an empty value.
    pub proof fn lemma_to_list_dims(self)
        requires
            !self.spec_range().spec_is_empty(),
        ensures
            self.spec_to_list(true, None).len() == self.spec_range().spec_height(),
            forall|i: int|
                0 <= i < self.spec_to_list(true, None).len() ==> #[trigger] self.spec_to_list(
                    true,
                    None,
                )[i].len() == self.spec_range().spec_width(),
            forall|i: int, j: int|
                0 <= i < self.spec_range().spec_height() && 0 <= j
                    < self.spec_range().spec_width() ==> #[trigger] self.spec_to_list(
                    true,
                    None,
                )[i][j] == spec_coerce(self.spec_range().grid()[i][j]@),
            (self.spec_range().spec_start_row() != 0 || self.spec_range().spec_start_col() != 0)
                ==> {
                let sr = self.spec_range().spec_start_row() as int;
                let sc = self.spec_range().spec_start_col() as int;
                &&& self.spec_to_list(false, None).len() == sr
                    + self.spec_range().spec_height()
                &&& forall|i: int|
                    0 <= i < self.spec_to_list(false, None).len()
                        ==> #[trigger] self.spec_to_list(false, None)[i].len() == sc
                        + self.spec_range().spec_width()
                &&& forall|i: int, j: int|
                    0 <= i < self.spec_to_list(false, None).len() && 0 <= j < sc
                        + self.spec_range().spec_width() && (i < sr || j < sc)
                        ==> #[trigger] self.spec_to_list(false, None)[i][j]
                        == CellValueV::Empty
            },
    {
    }

    /// A fresh cursor over this sheet's rows, starting before the first
    /// absolute row.
    pub fn iter_rows(&self) -> (r: CalamineCellIterator)
        ensures
            r.spec_position() == 0,
            r.grid() == self.spec_range().grid(),
            r.spec_start() == (match self.spec_range().spec_start() {
                Some(p) => p,
                None => (0u32, 0u32),
            }),
    {
        CalamineCellIterator::from_range(&self.range)
    }

    /// A fresh cursor over this sheet's formula text, row by row inside the
    /// data bounds; fails when the sheet was opened without formula capture.
    pub fn iter_formulas(&self) -> (r: Result<CalamineFormulaIterator, Error>)
        ensures
            r is Err <==> self.spec_formula_range() is None,
            r matches Err(e) ==> e == Error::FormulasDisabled,
            r matches Ok(it) ==> {
                &&& it.spec_position() == 0
                &&& self.spec_formula_range() matches Some(fr) && it.spec_frange().grid()
                    == fr.grid() && it.spec_frange().spec_start_row() == fr.spec_start_row()
                    && it.spec_frange().spec_start_col() == fr.spec_start_col()
                &&& it.spec_start() == (match self.spec_range().spec_start() {
                    Some(p) => p,
                    None => (0u32, 0u32),
                })
                &&& !self.spec_range().spec_is_empty() ==> (it.spec_height()
                    == self.spec_range().spec_height() && it.spec_width()
                    == self.spec_range().spec_width())
                &&& self.spec_range().spec_is_empty() ==> (it.spec_height() == 1
                    && it.spec_width() == 1)
            },
    {
        match &self.formula_range {
            Some(fr) => {
                let ds = match self.range.start() {
                    Some(p) => p,
                    None => (0, 0),
                };
                let de = match self.range.end() {
                    Some(p) => p,
                    None => (0, 0),
                };
                Ok(CalamineFormulaIterator::new(fr.duplicate(), ds, de))
            },
            None => Err(Error::FormulasDisabled),
        }
    }
}

/// Build one re-anchored row: absolute row `i` over columns `0 ..
/// start_col + width`, empty before the used area, coerced inside it.
fn widened_row(range: &Range<RawCell>, i: u64) -> (r: Vec<CellValue>)
    requires
        !range.spec_is_empty(),
    ensures
        r@.len() == range.spec_start_col() + range.spec_width(),
        forall|j: int|
            0 <= j < r@.len() ==> (#[trigger] r@[j])@ == (if range.spec_start_row() <= i
                && i < range.spec_start_row() + range.spec_height() && range.spec_start_col()
                <= j {
                spec_coerce(
                    range.grid()[i - range.spec_start_row()][j - range.spec_start_col()]@,
                )
            } else {
                CellValueV::Empty
            }),
{
    let s = match range.start() {
        Some(p) => p,
        None => (0, 0),
    };
    let sr = s.0;
    let sc = s.1;
    let h = range.height();
    let w = range.width();
    let width_total: u64 = sc as u64 + w as u64;
    let mut out: Vec<CellValue> = Vec::new();
    if i >= sr as u64 && i < sr as u64 + h as u64 {
        let rrow = range.row((i - sr as u64) as usize);
        let mut j: u64 = 0;
        while j < width_total
            invariant
                width_total == sc as u64 + w as u64,
                sr as u64 <= i < sr as u64 + h as u64,
                sr == range.spec_start_row(),
                sc == range.spec_start_col(),
                w == range.spec_width(),
                h == range.spec_height(),
                rrow@ == range.grid()[i - sr],
                rrow@.len() == w,
                j <= width_total,
                out@.len() == j,
                forall|k: int|
                    0 <= k < j ==> (#[trigger] out@[k])@ == (if sc <= k {
                        spec_coerce(range.grid()[i - sr][k - sc]@)
                    } else {
                        CellValueV::Empty
                    }),
            decreases width_total - j,
        {
            if j < sc as u64 {
                out.push(CellValue::Empty);
            } else {
                out.push(coerce(&rrow[(j - sc as u64) as usize]));
            }
            j += 1;
        }
    } else {
        let mut j: u64 = 0;
        while j < width_total
            invariant
                j <= width_total,
                out@.len() == j,
                forall|k: int| 0 <= k < j ==> (#[trigger] out@[k])@ == CellValueV::Empty,
            decreases width_total - j,
        {
            out.push(CellValue::Empty);
            j += 1;
        }
    }
    out
}

/// A stateful cursor over a sheet's rows. Before the data's start row it
/// yields synthetic all-empty rows, so row numbering is stable from
/// absolute row zero; then it yields each data row once, coerced lazily;
/// then it is exhausted.
pub struct CalamineCellIterator {
    position: u64,
    start: (u32, u32),
    range: Range<RawCell>,
}

impl CalamineCellIterator {
    /// The cursor never runs past one step per yielding call, and the
    /// total number of yields fits `u32` arithmetic.
    #[verifier::type_invariant]
    spec fn inv(self) -> bool {
        &&& self.position <= self.start.0 + self.range.spec_height()
        &&& self.start.0 + self.range.spec_height() <= u32::MAX + 1
    }

    /// Number of rows yielded so far.
    pub closed spec fn spec_position(self) -> u64 {
        self.position
    }

    /// The data's absolute start position.
    pub closed spec fn spec_start(self) -> (u32, u32) {
        self.start
    }

    /// The backing raw rows.
    pub closed spec fn grid(self) -> Seq<Seq<RawCell>> {
        self.range.grid()
    }

    pub open spec fn spec_width(self) -> int {
        if self.grid().len() == 0 {
            0
        } else {
            self.grid()[0].len() as int
        }
    }

    /// Total number of rows the cursor yields: the synthetic ones before
    /// the data plus one per data row.
    pub open spec fn spec_total(self) -> int {
        self.spec_start().0 + self.grid().len()
    }

    /// What the call at cursor position `k` yields: a synthetic all-empty
    /// row before the data's start row, a coerced data row inside the data,
    /// nothing after it.
    pub open spec fn spec_row_yield(self, k: int) -> Option<Seq<CellValueV>> {
        let synth = self.spec_start().0 as int;
        let h = self.grid().len() as int;
        if 0 <= k < synth {
            Some(
                Seq::new(
                    self.spec_width() as nat,
                    |j: int| CellValueV::String(Seq::<char>::empty()),
                ),
            )
        } else if synth <= k < synth + h {
            Some(
                Seq::new(self.spec_width() as nat, |j: int| spec_coerce(self.grid()[k - synth][j]@)),
            )
        } else {
            None
        }
    }

    /// A fresh cursor over the given range.
    pub fn from_range(range: &Range<RawCell>) -> (r: Self)
        ensures
            r.spec_position() == 0,
            r.grid() == range.grid(),
            r.spec_start() == (match range.spec_start() {
                Some(p) => p,
                None => (0u32, 0u32),
            }),
    {
        let start = match range.start() {
            Some(p) => p,
            None => (0, 0),
        };
        CalamineCellIterator { position: 0, start, range: range.duplicate() }
    }

    pub fn position(&self) -> (r: u64)
        ensures
            r == self.spec_position(),
    {
        self.position
    }

    pub fn start(&self) -> (r: (u32, u32))
        ensures
            r == self.spec_start(),
    {
        self.start
    }

    pub fn height(&self) -> (r: usize)
        ensures
            r == self.grid().len(),
    {
        self.range.height()
    }

    pub fn width(&self) -> (r: usize)
        ensures
            r == self.spec_width(),
    {
        self.range.width()
    }

    /// Yield the next row, synthetic or real, or signal exhaustion.
    pub fn next_row(&mut self) -> (r: Option<Vec<CellValue>>)
        ensures
            final(self).grid() == old(self).grid(),
            final(self).spec_start() == old(self).spec_start(),
            r is Some <==> old(self).spec_position() < old(self).spec_total(),
            r matches Some(row) ==> (Some(row_view(row)) == old(self).spec_row_yield(
                old(self).spec_position() as int,
            ) && final(self).spec_position() == old(self).spec_position() + 1),
            r is None ==> *final(self) == *old(self),
    {
        proof {
            use_type_invariant(&*self);
        }
        let synth: u64 = self.start.0 as u64;
        let h: u64 = self.range.height() as u64;
        if self.position < synth {
            let w = self.range.width();
            let mut row: Vec<CellValue> = Vec::new();
            let mut j: usize = 0;
            while j < w
                invariant
                    j <= w,
                    row@.len() == j,
                    forall|k: int|
                        0 <= k < j ==> (#[trigger] row@[k])@ == CellValueV::String(
                            Seq::<char>::empty(),
                        ),
                decreases w - j,
            {
                row.push(CellValue::String(String::new()));
                j += 1;
            }
            self.position = self.position + 1;
            proof {
                assert(row_view(row) =~= old(self).spec_row_yield(
                    old(self).spec_position() as int,
                )->Some_0);
            }
            Some(row)
        } else if self.position - synth < h {
            let row = coerce_row(self.range.row((self.position - synth) as usize));
            self.position = self.position + 1;
            proof {
                assert(row_view(row) =~= old(self).spec_row_yield(
                    old(self).spec_position() as int,
                )->Some_0);
            }
            Some(row)
        } else {
            None
        }
    }
}

/// A fresh row cursor yields one synthetic all-empty row for each absolute
/// row before the data's start row, then every data row exactly once and
/// in order, and nothing after `start.row + height` yields: it is finite
/// and single-pass.
pub proof fn lemma_iter_rows_schedule(it: CalamineCellIterator, k: int)
    ensures
        (it.spec_row_yield(k) is Some) <==> (0 <= k < it.spec_total()),
        0 <= k < it.spec_start().0 ==> (it.spec_row_yield(k) matches Some(row) && row.len()
            == it.spec_width() && (forall|j: int|
            0 <= j < row.len() ==> row[j] == CellValueV::String(Seq::<char>::empty()))),
        it.spec_start().0 <= k < it.spec_total() ==> (it.spec_row_yield(k) matches Some(row)
            && row == Seq::new(
            it.spec_width() as nat,
            |j: int| spec_coerce(it.grid()[k - it.spec_start().0][j]@),
        )),
{
}

/// A stateful cursor over a sheet's formula text: one row of formula
/// strings per row of the sheet's data bounds, an empty string wherever no
/// formula exists, independent of whether the value cell is populated.
pub struct CalamineFormulaIterator {
    position: u64,
    start: (u32, u32),
    width: usize,
    height: usize,
    range: Range<String>,
}

impl CalamineFormulaIterator {
    #[verifier::type_invariant]
    spec fn inv(self) -> bool {
        &&& self.position <= self.height
        &&& self.start.0 + self.height <= u32::MAX + 1
        &&& self.start.1 + self.width <= u32::MAX + 1
    }

    /// Number of rows yielded so far.
    pub closed spec fn spec_position(self) -> u64 {
        self.position
    }

    /// The data bounds' absolute start position.
    pub closed spec fn spec_start(self) -> (u32, u32) {
        self.start
    }

    /// Width of the data bounds.
    pub closed spec fn spec_width(self) -> int {
        self.width as int
    }

    /// Height of the data bounds: the number of rows the cursor yields.
    pub closed spec fn spec_height(self) -> int {
        self.height as int
    }

    /// The backing formula range.
    pub closed spec fn spec_frange(self) -> Range<String> {
        self.range
    }

    /// What the call at cursor position `k` yields: inside the data bounds,
    /// the formula text under each data column (empty where the formula
    /// range has no non-empty entry); nothing past the data bounds.
    pub open spec fn spec_row_yield(self, k: int) -> Option<Seq<Seq<char>>> {
        if 0 <= k < self.spec_height() {
            Some(
                Seq::new(
                    self.spec_width() as nat,
                    |j: int|
                        {
                            let pos = (
                                (self.spec_start().0 + k) as u32,
                                (self.spec_start().1 + j) as u32,
                            );
                            if self.spec_frange().spec_in_bounds(pos) {
                                self.spec_frange().grid()[pos.0
                                    - self.spec_frange().spec_start_row()][pos.1
                                    - self.spec_frange().spec_start_col()]@
                            } else {
                                Seq::<char>::empty()
                            }
                        },
                ),
            )
        } else {
            None
        }
    }

    /// A fresh cursor over formula text, clipped to the given inclusive
    /// data bounds (which are empty unless start is component-wise at or
    /// before end).
    pub fn new(range: Range<String>, data_start: (u32, u32), data_end: (u32, u32)) -> (r: Self)
        requires
            data_start.0 <= data_end.0 ==> data_end.0 - data_start.0 < usize::MAX,
            data_start.1 <= data_end.1 ==> data_end.1 - data_start.1 < usize::MAX,
        ensures
            r.spec_position() == 0,
            r.spec_start() == data_start,
            r.spec_frange() == range,
            (data_start.0 <= data_end.0 && data_start.1 <= data_end.1) ==> (r.spec_height()
                == data_end.0 - data_start.0 + 1 && r.spec_width() == data_end.1 - data_start.1
                + 1),
            !(data_start.0 <= data_end.0 && data_start.1 <= data_end.1) ==> (r.spec_height() == 0
                && r.spec_width() == 0),
    {
        if data_start.0 <= data_end.0 && data_start.1 <= data_end.1 {
            let height = ((data_end.0 - data_start.0) as u64 + 1) as usize;
            let width = ((data_end.1 - data_start.1) as u64 + 1) as usize;
            CalamineFormulaIterator { position: 0, start: data_start, width, height, range }
        } else {
            CalamineFormulaIterator { position: 0, start: data_start, width: 0, height: 0, range }
        }
    }

    pub fn position(&self) -> (r: u64)
        ensures
            r == self.spec_position(),
    {
        self.position
    }

    pub fn start(&self) -> (r: (u32, u32))
        ensures
            r == self.spec_start(),
    {
        self.start
    }

    pub fn height(&self) -> (r: usize)
        ensures
            r == self.spec_height(),
    {
        self.height
    }

    pub fn width(&self) -> (r: usize)
        ensures
            r == self.spec_width(),
    {
        self.width
    }

    /// Yield the next row of formula text, or signal exhaustion.
    pub fn next_row(&mut self) -> (r: Option<Vec<String>>)
        ensures
            final(self).spec_frange() == old(self).spec_frange(),
            final(self).spec_start() == old(self).spec_start(),
            final(self).spec_width() == old(self).spec_width(),
            final(self).spec_height() == old(self).spec_height(),
            r is Some <==> old(self).spec_position() < old(self).spec_height(),
            r matches Some(row) ==> (Some(formula_row_view(row)) == old(self).spec_row_yield(
                old(self).spec_position() as int,
            ) && final(self).spec_position() == old(self).spec_position() + 1),
            r is None ==> *final(self) == *old(self),
    {
        proof {
            use_type_invariant(&*self);
        }
        if self.position >= self.height as u64 {
            return None;
        }
        let current_row: u32 = self.start.0 + self.position as u32;
        let mut row: Vec<String> = Vec::new();
        let mut j: usize = 0;
        while j < self.width
            invariant
                self.start.1 + self.width <= u32::MAX + 1,
                current_row == self.spec_start().0 + self.spec_position(),
                self.spec_position() < self.spec_height(),
                j <= self.width,
                row@.len() == j,
                forall|k: int|
                    0 <= k < j ==> (#[trigger] row@[k])@ == (
                    {
                        let pos = ((self.spec_start().0 + self.spec_position()) as u32, (
                        self.spec_start().1 + k) as u32);
                        if self.spec_frange().spec_in_bounds(pos) {
                            self.spec_frange().grid()[pos.0
                                - self.spec_frange().spec_start_row()][pos.1
                                - self.spec_frange().spec_start_col()]@
                        } else {
                            Seq::<char>::empty()
                        }
                    }),
            decreases self.width - j,
        {
            let current_col: u32 = self.start.1 + j as u32;
            let cell = match self.range.get_value((current_row, current_col)) {
                Some(f) => f.clone(),
                None => String::new(),
            };
            row.push(cell);
            j += 1;
        }
        self.position = self.position + 1;
        proof {
            assert(formula_row_view(row) =~= old(self).spec_row_yield(
                old(self).spec_position() as int,
            )->Some_0);
        }
        Some(row)
    }
}

} // verus!
