use vstd::prelude::*;
use crate::cell::RawCell;

verus! {

/// An origin-anchored, rectangular 2D grid of cells with inclusive logical
/// bounds, addressed by absolute `(row, column)` pairs.
///
/// `start` and `end` describe the used area; an empty range has neither.
/// Height and width derive from the bounds, never from allocation.
pub struct Range<T> {
    start_row: u32,
    start_col: u32,
    cells: Vec<Vec<T>>,
}

impl<T> Range<T> {
    /// The grid is rectangular with no zero-width rows, and the inclusive
    /// end coordinates fit in `u32`.
    #[verifier::type_invariant]
    spec fn inv(self) -> bool {
        &&& forall|i: int|
            0 <= i < self.cells@.len() ==> (#[trigger] self.cells@[i])@.len()
                == self.cells@[0]@.len()
        &&& self.cells@.len() > 0 ==> self.cells@[0]@.len() > 0
        &&& self.cells@.len() > 0 ==> self.start_row + self.cells@.len() <= u32::MAX + 1
        &&& self.cells@.len() > 0 ==> self.start_col + self.cells@[0]@.len() <= u32::MAX + 1
    }

    /// The cell contents, row-major, as sequences.
    pub closed spec fn grid(self) -> Seq<Seq<T>> {
        self.cells@.map_values(|row: Vec<T>| row@)
    }

    /// Absolute row of the top-left used cell (meaningful when non-empty).
    pub closed spec fn spec_start_row(self) -> u32 {
        self.start_row
    }

    /// Absolute column of the top-left used cell (meaningful when non-empty).
    pub closed spec fn spec_start_col(self) -> u32 {
        self.start_col
    }

    pub open spec fn spec_height(self) -> int {
        self.grid().len() as int
    }

    pub open spec fn spec_width(self) -> int {
        if self.grid().len() == 0 {
            0
        } else {
            self.grid()[0].len() as int
        }
    }

    pub open spec fn spec_is_empty(self) -> bool {
        self.grid().len() == 0
    }

    pub open spec fn spec_start(self) -> Option<(u32, u32)> {
        if self.spec_is_empty() {
            None
        } else {
            Some((self.spec_start_row(), self.spec_start_col()))
        }
    }

    pub open spec fn spec_end(self) -> Option<(u32, u32)> {
        if self.spec_is_empty() {
            None
        } else {
            Some(
                (
                    (self.spec_start_row() + self.spec_height() - 1) as u32,
                    (self.spec_start_col() + self.spec_width() - 1) as u32,
                ),
            )
        }
    }

    /// Whether an absolute position falls inside the used area.
    pub open spec fn spec_in_bounds(self, pos: (u32, u32)) -> bool {
        &&& !self.spec_is_empty()
        &&& self.spec_start_row() <= pos.0
        &&& pos.0 < self.spec_start_row() + self.spec_height()
        &&& self.spec_start_col() <= pos.1
        &&& pos.1 < self.spec_start_col() + self.spec_width()
    }

    /// Wrap an already-decoded rectangular grid, anchored at the given
    /// absolute top-left position.
    pub fn new(start_row: u32, start_col: u32, cells: Vec<Vec<T>>) -> (r: Self)
        requires
            forall|i: int|
                0 <= i < cells@.len() ==> (#[trigger] cells@[i])@.len() == cells@[0]@.len(),
            cells@.len() > 0 ==> cells@[0]@.len() > 0,
            cells@.len() > 0 ==> start_row + cells@.len() <= u32::MAX + 1,
            cells@.len() > 0 ==> start_col + cells@[0]@.len() <= u32::MAX + 1,
        ensures
            r.grid() == cells@.map_values(|row: Vec<T>| row@),
            r.spec_start_row() == start_row,
            r.spec_start_col() == start_col,
            r.spec_height() == cells@.len(),
    {
        let r = Range { start_row, start_col, cells };
        r
    }

    /// A range with no cells at all.
    pub fn empty() -> (r: Self)
        ensures
            r.spec_is_empty(),
            r.grid() == Seq::<Seq<T>>::empty(),
    {
        let r = Range { start_row: 0, start_col: 0, cells: Vec::new() };
        proof {
            assert(r.grid() =~= Seq::<Seq<T>>::empty());
        }
        r
    }

    /// Number of rows in the used area.
    pub fn height(&self) -> (r: usize)
        ensures
            r == self.spec_height(),
    {
        self.cells.len()
    }

    /// Number of columns in the used area.
    pub fn width(&self) -> (r: usize)
        ensures
            r == self.spec_width(),
    {
        proof {
            use_type_invariant(self);
        }
        if self.cells.len() == 0 {
            0
        } else {
            self.cells[0].len()
        }
    }

    /// Top-left position of the used area, `None` if the range is empty.
    /// Also surfaces that the used area's inclusive bounds fit in `u32`.
    pub fn start(&self) -> (r: Option<(u32, u32)>)
        ensures
            r == self.spec_start(),
            self.spec_height() <= usize::MAX,
            self.spec_width() <= usize::MAX,
            !self.spec_is_empty() ==> self.spec_width() > 0,
            !self.spec_is_empty() ==> self.spec_start_row() + self.spec_height() <= u32::MAX + 1,
            !self.spec_is_empty() ==> self.spec_start_col() + self.spec_width() <= u32::MAX + 1,
    {
        proof {
            use_type_invariant(self);
            assert(vstd::std_specs::vec::spec_vec_len(&self.cells) == self.cells@.len());
            if self.cells@.len() > 0 {
                assert(vstd::std_specs::vec::spec_vec_len(&self.cells@[0])
                    == self.cells@[0]@.len());
            }
        }
        if self.cells.len() == 0 {
            None
        } else {
            Some((self.start_row, self.start_col))
        }
    }

    /// Bottom-right position of the used area, `None` if the range is empty.
    pub fn end(&self) -> (r: Option<(u32, u32)>)
        ensures
            r == self.spec_end(),
    {
        proof {
            use_type_invariant(self);
        }
        if self.cells.len() == 0 {
            None
        } else {
            let h = self.cells.len();
            let w = self.cells[0].len();
            Some((self.start_row + (h - 1) as u32, self.start_col + (w - 1) as u32))
        }
    }

    /// One row of the used area, by index relative to `start`.
    pub fn row(&self, i: usize) -> (r: &Vec<T>)
        requires
            i < self.spec_height(),
        ensures
            r@ == self.grid()[i as int],
            r@.len() == self.spec_width(),
    {
        proof {
            use_type_invariant(self);
        }
        &self.cells[i]
    }

    /// The cell at an absolute position, `None` outside the used area.
    pub fn get_value(&self, pos: (u32, u32)) -> (r: Option<&T>)
        ensures
            self.spec_in_bounds(pos) ==> (r matches Some(v) && *v == self.grid()[pos.0
                - self.spec_start_row()][pos.1 - self.spec_start_col()]),
            !self.spec_in_bounds(pos) ==> r is None,
    {
        proof {
            use_type_invariant(self);
        }
        if self.cells.len() == 0 {
            return None;
        }
        let h = self.cells.len();
        let w = self.cells[0].len();
        if pos.0 < self.start_row || pos.1 < self.start_col {
            return None;
        }
        let ri = (pos.0 - self.start_row) as usize;
        let ci = (pos.1 - self.start_col) as usize;
        if ri >= h || ci >= w {
            return None;
        }
        Some(&self.cells[ri][ci])
    }
}

/// Duplicate one raw cell; text payloads are copied character for
/// character, so the copy equals the original.
fn dup_raw_cell(c: &RawCell) -> (r: RawCell)
    ensures
        r == *c,
{
    match c {
        RawCell::Int(v) => RawCell::Int(*v),
        RawCell::Float(b) => RawCell::Float(*b),
        RawCell::String(s) => RawCell::String(s.clone()),
        RawCell::Serial(sv) => RawCell::Serial(*sv),
        RawCell::IsoDateTime(s) => RawCell::IsoDateTime(s.clone()),
        RawCell::IsoDuration(s) => RawCell::IsoDuration(s.clone()),
        RawCell::Bool(b) => RawCell::Bool(*b),
        RawCell::Error => RawCell::Error,
        RawCell::Empty => RawCell::Empty,
    }
}

impl Range<RawCell> {
    /// The logical sub-range inside the inclusive rectangle `from .. to`:
    /// it holds exactly the used cells that fall in the rectangle,
    /// unchanged and at their absolute positions. Bounds past the used
    /// area are clamped, never an error.
    pub fn slice(&self, from: (u32, u32), to: (u32, u32)) -> (r: Self)
        ensures
            forall|p: (u32, u32)|
                #![trigger r.spec_in_bounds(p)]
                r.spec_in_bounds(p) <==> (self.spec_in_bounds(p) && from.0 <= p.0 && p.0 <= to.0
                    && from.1 <= p.1 && p.1 <= to.1),
            forall|p: (u32, u32)|
                #![trigger r.spec_in_bounds(p)]
                r.spec_in_bounds(p) ==> r.grid()[p.0 - r.spec_start_row()][p.1
                    - r.spec_start_col()] == self.grid()[p.0 - self.spec_start_row()][p.1
                    - self.spec_start_col()],
    {
        proof {
            use_type_invariant(self);
        }
        let h = self.cells.len();
        if h == 0 {
            return Range::empty();
        }
        let w = self.cells[0].len();
        let sr = self.start_row;
        let sc = self.start_col;
        let er: u32 = sr + (h - 1) as u32;
        let ec: u32 = sc + (w - 1) as u32;
        let csr = if from.0 > sr {
            from.0
        } else {
            sr
        };
        let csc = if from.1 > sc {
            from.1
        } else {
            sc
        };
        let cer = if to.0 < er {
            to.0
        } else {
            er
        };
        let cec = if to.1 < ec {
            to.1
        } else {
            ec
        };
        if csr > cer || csc > cec {
            return Range::empty();
        }
        let n_rows = (cer - csr) as usize + 1;
        let n_cols = (cec - csc) as usize + 1;
        let row_off = (csr - sr) as usize;
        let col_off = (csc - sc) as usize;
        let mut cells: Vec<Vec<RawCell>> = Vec::new();
        let mut i: usize = 0;
        while i < n_rows
            invariant
                h == self.cells@.len(),
                w == self.cells@[0]@.len(),
                forall|k: int|
                    0 <= k < self.cells@.len() ==> (#[trigger] self.cells@[k])@.len() == w,
                row_off + n_rows <= h,
                col_off + n_cols <= w,
                n_cols >= 1,
                i <= n_rows,
                cells@.len() == i,
                forall|k: int| 0 <= k < i ==> (#[trigger] cells@[k])@.len() == n_cols,
                forall|k: int, j: int|
                    0 <= k < i && 0 <= j < n_cols ==> #[trigger] cells@[k]@[j]
                        == self.cells@[row_off + k]@[col_off + j],
            decreases n_rows - i,
        {
            let src_row = &self.cells[row_off + i];
            let src_w = src_row.len();
            let mut row: Vec<RawCell> = Vec::new();
            let mut j: usize = 0;
            while j < n_cols
                invariant
                    src_w == src_row@.len(),
                    col_off + n_cols <= src_w,
                    j <= n_cols,
                    row@.len() == j,
                    forall|k: int| 0 <= k < j ==> row@[k] == src_row@[col_off + k],
                decreases n_cols - j,
            {
                row.push(dup_raw_cell(&src_row[col_off + j]));
                j += 1;
            }
            cells.push(row);
            i += 1;
        }
        let r = Range { start_row: csr, start_col: csc, cells };
        r
    }

    /// An independent copy with the same bounds and the same cells, so a
    /// cursor can outlive the view it was created from.
    pub fn duplicate(&self) -> (r: Self)
        ensures
            r.grid() == self.grid(),
            r.spec_start_row() == self.spec_start_row(),
            r.spec_start_col() == self.spec_start_col(),
    {
        proof {
            use_type_invariant(self);
        }
        let mut cells: Vec<Vec<RawCell>> = Vec::new();
        let h = self.cells.len();
        let mut i: usize = 0;
        while i < h
            invariant
                h == self.cells@.len(),
                i <= h,
                cells@.len() == i,
                forall|k: int| 0 <= k < i ==> (#[trigger] cells@[k])@ == self.cells@[k]@,
            decreases h - i,
        {
            let src_row = &self.cells[i];
            let w = src_row.len();
            let mut row: Vec<RawCell> = Vec::new();
            let mut j: usize = 0;
            while j < w
                invariant
                    w == src_row@.len(),
                    j <= w,
                    row@.len() == j,
                    forall|k: int| 0 <= k < j ==> row@[k] == src_row@[k],
                decreases w - j,
            {
                row.push(dup_raw_cell(&src_row[j]));
                j += 1;
            }
            proof {
                assert(row@ =~= src_row@);
            }
            cells.push(row);
            i += 1;
        }
        let r = Range { start_row: self.start_row, start_col: self.start_col, cells };
        proof {
            assert(r.grid() =~~= self.grid());
        }
        r
    }
}

impl Range<String> {
    /// An independent copy with the same bounds and the same cells, so a
    /// cursor can outlive the view it was created from.
    pub fn duplicate(&self) -> (r: Self)
        ensures
            r.grid() == self.grid(),
            r.spec_start_row() == self.spec_start_row(),
            r.spec_start_col() == self.spec_start_col(),
    {
        proof {
            use_type_invariant(self);
        }
        let mut cells: Vec<Vec<String>> = Vec::new();
        let h = self.cells.len();
        let mut i: usize = 0;
        while i < h
            invariant
                h == self.cells@.len(),
                i <= h,
                cells@.len() == i,
                forall|k: int| 0 <= k < i ==> (#[trigger] cells@[k])@ == self.cells@[k]@,
            decreases h - i,
        {
            let src_row = &self.cells[i];
            let w = src_row.len();
            let mut row: Vec<String> = Vec::new();
            let mut j: usize = 0;
            while j < w
                invariant
                    w == src_row@.len(),
                    j <= w,
                    row@.len() == j,
                    forall|k: int| 0 <= k < j ==> row@[k] == src_row@[k],
                decreases w - j,
            {
                row.push(src_row[j].clone());
                j += 1;
            }
            proof {
                assert(row@ =~= src_row@);
            }
            cells.push(row);
            i += 1;
        }
        let r = Range { start_row: self.start_row, start_col: self.start_col, cells };
        proof {
            assert(r.grid() =~~= self.grid());
        }
        r
    }
}

} // verus!
