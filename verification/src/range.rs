//! The rectangular, coordinate-addressed grid of cell values for one sheet.

use vstd::prelude::*;

use crate::cell::CellValue;

verus! {

/// The mathematical content of a [`CellRange`]: the declared start
/// coordinate (absent when the range holds no cells) and the grid of rows,
/// each row listing the cells of one sheet row from the start column on.
#[verifier::ext_equal]
pub struct RangeView {
    /// The declared first coordinate, `None` for an empty range.
    pub start: Option<(u32, u32)>,
    /// The rows actually spanned, in order, each of the spanned width.
    pub grid: Seq<Seq<CellValue>>,
}

/// The shape a non-empty grid declared to start at `(start_row, start_col)`
/// must have: at least one row, rows of one positive common width, and an
/// end coordinate that still fits both `u32` (the coordinate type) and the
/// machine's index range.
pub open spec fn valid_dims(start_row: u32, start_col: u32, grid: Seq<Seq<CellValue>>) -> bool {
    &&& grid.len() > 0
    &&& grid[0].len() > 0
    &&& forall|i: int| 0 <= i < grid.len() ==> (#[trigger] grid[i]).len() == grid[0].len()
    &&& start_row + grid.len() <= u32::MAX as int + 1
    &&& start_col + grid[0].len() <= u32::MAX as int + 1
    &&& start_row + grid.len() <= usize::MAX as int
    &&& start_col + grid[0].len() <= usize::MAX as int
}

impl RangeView {
    /// The count of rows spanned.
    pub open spec fn height(self) -> nat {
        self.grid.len()
    }

    /// The count of columns spanned.
    pub open spec fn width(self) -> nat {
        if self.grid.len() == 0 {
            0
        } else {
            self.grid[0].len()
        }
    }

    /// The declared start row, for a non-empty range.
    pub open spec fn start_row(self) -> int {
        (self.start->0).0 as int
    }

    /// The declared start column, for a non-empty range.
    pub open spec fn start_col(self) -> int {
        (self.start->0).1 as int
    }

    /// The last spanned row, for a non-empty range.
    pub open spec fn end_row(self) -> int {
        self.start_row() + self.height() - 1
    }

    /// The last spanned column, for a non-empty range.
    pub open spec fn end_col(self) -> int {
        self.start_col() + self.width() - 1
    }

    /// The declared end coordinate, `None` for an empty range.
    pub open spec fn end(self) -> Option<(u32, u32)> {
        match self.start {
            Option::None => Option::None,
            Option::Some(_) => Option::Some((self.end_row() as u32, self.end_col() as u32)),
        }
    }

    /// Whether the absolute coordinate `(r, c)` addresses a cell of the grid.
    pub open spec fn in_grid(self, r: int, c: int) -> bool {
        &&& self.start is Some
        &&& self.start_row() <= r <= self.end_row()
        &&& self.start_col() <= c <= self.end_col()
    }

    /// The cell at the absolute coordinate `(r, c)`.
    pub open spec fn cell(self, r: int, c: int) -> CellValue
        recommends
            self.in_grid(r, c),
    {
        self.grid[r - self.start_row()][c - self.start_col()]
    }

    /// The cell at the absolute coordinate `(r, c)`, or `Empty` where the
    /// grid holds no cell.
    pub open spec fn cell_or_empty(self, r: int, c: int) -> CellValue {
        if self.in_grid(r, c) {
            self.cell(r, c)
        } else {
            CellValue::Empty
        }
    }

    /// Internal consistency: an empty range has no rows; a non-empty one has
    /// the shape its start coordinate allows.
    pub open spec fn wf(self) -> bool {
        match self.start {
            Option::None => self.grid.len() == 0,
            Option::Some(s) => valid_dims(s.0, s.1, self.grid),
        }
    }
}

/// The rectangular grid of cells for one sheet, addressed by zero-based
/// absolute `(row, column)` coordinates. The declared start need not be the
/// origin: coordinates above or left of it address no cell.
pub struct CellRange {
    start: Option<(u32, u32)>,
    cells: Vec<Vec<CellValue>>,
}

impl View for CellRange {
    type V = RangeView;

    closed spec fn view(&self) -> RangeView {
        RangeView {
            start: self.start,
            grid: Seq::new(self.cells@.len(), |i: int| self.cells@[i]@),
        }
    }
}

/// Copies one row of cells.
pub fn clone_row(row: &Vec<CellValue>) -> (res: Vec<CellValue>)
    ensures
        res@ == row@,
{
    let res = row.clone();
    proof {
        assert forall|i: int| 0 <= i < row@.len() implies res@[i] == row@[i] by {
            assert(cloned::<CellValue>(row@[i], res@[i]));
        }
        assert(res@ =~= row@);
    }
    res
}

impl CellRange {
    /// The range of a sheet without any cell.
    pub fn empty() -> (res: Self)
        ensures
            res@.wf(),
            res@.start is None,
            res@.grid == Seq::<Seq<CellValue>>::empty(),
    {
        let res = CellRange { start: Option::None, cells: Vec::new() };
        proof {
            assert(res@.grid =~= Seq::<Seq<CellValue>>::empty());
        }
        res
    }

    /// Builds a range from its declared start coordinate and its rows.
    /// Returns `None` when the rows do not form a grid of positive, uniform
    /// width whose end coordinate is addressable.
    pub fn new(start_row: u32, start_col: u32, rows: Vec<Vec<CellValue>>) -> (res: Option<Self>)
        ensures
            match res {
                Option::Some(range) => {
                    &&& valid_dims(start_row, start_col, rows@.map_values(|v: Vec<CellValue>| v@))
                    &&& range@.wf()
                    &&& range@.start == Option::Some((start_row, start_col))
                    &&& range@.grid == rows@.map_values(|v: Vec<CellValue>| v@)
                },
                Option::None => !valid_dims(
                    start_row,
                    start_col,
                    rows@.map_values(|v: Vec<CellValue>| v@),
                ),
            },
    {
        let ghost gv = rows@.map_values(|v: Vec<CellValue>| v@);
        if rows.len() == 0 {
            return Option::None;
        }
        let w = rows[0].len();
        if w == 0 {
            proof {
                assert(gv[0] == rows@[0]@);
            }
            return Option::None;
        }
        let mut i: usize = 1;
        while i < rows.len()
            invariant
                1 <= i <= rows@.len(),
                w == rows@[0]@.len(),
                forall|j: int| 0 <= j < i ==> (#[trigger] rows@[j])@.len() == w,
            decreases rows@.len() - i,
        {
            if rows[i].len() != w {
                proof {
                    let gv2 = rows@.map_values(|v: Vec<CellValue>| v@);
                    assert(gv2[i as int] == rows@[i as int]@);
                    assert(gv2[0] == rows@[0]@);
                }
                return Option::None;
            }
            i += 1;
        }
        let len64: u64 = rows.len() as u64;
        let w64: u64 = w as u64;
        proof {
            assert(gv.len() == rows@.len());
            assert(gv[0] == rows@[0]@);
        }
        if len64 > u32::MAX as u64 + 1 || start_row as u64 + len64 > u32::MAX as u64 + 1
            || start_row as u64 + len64 > usize::MAX as u64 {
            return Option::None;
        }
        if w64 > u32::MAX as u64 + 1 || start_col as u64 + w64 > u32::MAX as u64 + 1
            || start_col as u64 + w64 > usize::MAX as u64 {
            return Option::None;
        }
        let res = CellRange { start: Option::Some((start_row, start_col)), cells: rows };
        proof {
            assert(res@.grid =~= gv);
            assert(valid_dims(start_row, start_col, res@.grid));
        }
        Option::Some(res)
    }

    /// The count of rows spanned, zero for an empty range.
    pub fn height(&self) -> (res: usize)
        ensures
            res == self@.height(),
    {
        self.cells.len()
    }

    /// The count of columns spanned, zero for an empty range.
    pub fn width(&self) -> (res: usize)
        ensures
            res == self@.width(),
    {
        if self.cells.len() == 0 {
            0
        } else {
            self.cells[0].len()
        }
    }

    /// The declared start coordinate, `None` for an empty range.
    pub fn start(&self) -> (res: Option<(u32, u32)>)
        ensures
            res == self@.start,
    {
        self.start
    }

    /// The declared end coordinate, `None` for an empty range.
    pub fn end(&self) -> (res: Option<(u32, u32)>)
        requires
            self@.wf(),
        ensures
            res == self@.end(),
    {
        match self.start {
            Option::None => Option::None,
            Option::Some((sr, sc)) => {
                let er = (sr as u64 + self.cells.len() as u64 - 1) as u32;
                let ec = (sc as u64 + self.cells[0].len() as u64 - 1) as u32;
                Option::Some((er, ec))
            },
        }
    }

    /// The cell at an absolute coordinate, or `None` where the grid holds
    /// no cell.
    pub fn get_value(&self, absolute_position: (u32, u32)) -> (res: Option<&CellValue>)
        requires
            self@.wf(),
        ensures
            match res {
                Option::Some(cell) => self@.in_grid(
                    absolute_position.0 as int,
                    absolute_position.1 as int,
                ) && *cell == self@.cell(absolute_position.0 as int, absolute_position.1 as int),
                Option::None => !self@.in_grid(
                    absolute_position.0 as int,
                    absolute_position.1 as int,
                ),
            },
    {
        match self.start {
            Option::None => Option::None,
            Option::Some((sr, sc)) => {
                let (r, c) = absolute_position;
                if r >= sr && c >= sc {
                    let ri = (r - sr) as usize;
                    let ci = (c - sc) as usize;
                    if ri < self.cells.len() {
                        let row = &self.cells[ri];
                        if ci < row.len() {
                            Option::Some(&row[ci])
                        } else {
                            Option::None
                        }
                    } else {
                        Option::None
                    }
                } else {
                    Option::None
                }
            },
        }
    }

    /// Whether an absolute coordinate addresses a cell of the grid.
    pub fn has_cell(&self, absolute_position: (u32, u32)) -> (res: bool)
        requires
            self@.wf(),
        ensures
            res == self@.in_grid(absolute_position.0 as int, absolute_position.1 as int),
    {
        match self.start {
            Option::None => false,
            Option::Some((sr, sc)) => {
                let (r, c) = absolute_position;
                r >= sr && c >= sc && ((r - sr) as usize) < self.cells.len() && ((c - sc) as usize)
                    < self.cells[0].len()
            },
        }
    }

    /// Overwrites the cell at an absolute coordinate that the grid holds.
    pub fn set_value(&mut self, absolute_position: (u32, u32), value: CellValue)
        requires
            old(self)@.wf(),
            old(self)@.in_grid(absolute_position.0 as int, absolute_position.1 as int),
        ensures
            final(self)@.wf(),
            final(self)@.start == old(self)@.start,
            final(self)@.height() == old(self)@.height(),
            final(self)@.width() == old(self)@.width(),
            final(self)@.cell(absolute_position.0 as int, absolute_position.1 as int) == value,
            forall|r: int, c: int|
                old(self)@.in_grid(r, c) && !(r == absolute_position.0 && c
                    == absolute_position.1) ==> final(self)@.cell(r, c) == old(self)@.cell(r, c),
    {
        let (sr, sc) = match self.start {
            Option::Some(s) => s,
            Option::None => {
                proof {
                    assert(false);
                }
                (0, 0)
            },
        };
        let ri = (absolute_position.0 - sr) as usize;
        let ci = (absolute_position.1 - sc) as usize;
        proof {
            assert(old(self)@.grid[ri as int] == old(self).cells@[ri as int]@);
            assert(old(self)@.grid[ri as int].len() == old(self)@.width());
        }
        self.cells[ri][ci] = value;
        proof {
            let ghost ov = old(self)@;
            let ghost nv = self@;
            assert forall|i: int| 0 <= i < nv.grid.len() implies #[trigger] nv.grid[i] == (
            if i == ri as int {
                ov.grid[i].update(ci as int, value)
            } else {
                ov.grid[i]
            }) by {
                assert(nv.grid[i] == self.cells@[i]@);
                assert(ov.grid[i] == old(self).cells@[i]@);
                if i == ri as int {
                    assert(self.cells@[i]@ =~= old(self).cells@[i]@.update(ci as int, value));
                } else {
                    assert(self.cells@[i] == old(self).cells@[i]);
                }
            }
            assert(nv.grid.len() == ov.grid.len());
            assert(nv.grid[0].len() == ov.grid[0].len());
            assert forall|i: int| 0 <= i < nv.grid.len() implies (#[trigger] nv.grid[i]).len()
                == nv.grid[0].len() by {
                assert(ov.grid[i].len() == ov.grid[0].len());
            }
            assert(nv.wf());
        }
    }

    /// A borrow of the row at a zero-based index into the spanned rows.
    pub fn row(&self, index: usize) -> (res: &Vec<CellValue>)
        requires
            index < self@.height(),
        ensures
            res@ == self@.grid[index as int],
    {
        &self.cells[index]
    }

    /// Copies the first `n` spanned rows.
    pub fn rows_prefix(&self, n: usize) -> (res: Vec<Vec<CellValue>>)
        requires
            n <= self@.height(),
        ensures
            res@.len() == n,
            forall|i: int| 0 <= i < n ==> (#[trigger] res@[i])@ == self@.grid[i],
    {
        let mut out: Vec<Vec<CellValue>> = Vec::new();
        let mut i: usize = 0;
        while i < n
            invariant
                i <= n,
                n <= self@.height(),
                out@.len() == i,
                forall|j: int| 0 <= j < i ==> (#[trigger] out@[j])@ == self@.grid[j],
            decreases n - i,
        {
            out.push(clone_row(self.row(i)));
            i += 1;
        }
        out
    }

    /// Carves the sub-range spanning `new_start` to `new_end` inclusive:
    /// cells the grid holds are copied, coordinates it does not hold come
    /// out `Empty`.
    pub fn range(&self, new_start: (u32, u32), new_end: (u32, u32)) -> (res: CellRange)
        requires
            self@.wf(),
            new_start.0 <= new_end.0,
            new_start.1 <= new_end.1,
            new_end.0 < usize::MAX,
            new_end.1 < usize::MAX,
        ensures
            res@.wf(),
            res@.start == Option::Some(new_start),
            res@.height() == new_end.0 - new_start.0 + 1,
            res@.width() == new_end.1 - new_start.1 + 1,
            forall|r: int, c: int|
                0 <= r < res@.height() && 0 <= c < res@.width() ==> res@.grid[r][c]
                    == self@.cell_or_empty(new_start.0 + r, new_start.1 + c),
    {
        let h: usize = (new_end.0 - new_start.0) as usize + 1;
        let w: usize = (new_end.1 - new_start.1) as usize + 1;
        let mut rows: Vec<Vec<CellValue>> = Vec::new();
        let mut r: usize = 0;
        while r < h
            invariant
                r <= h,
                h == new_end.0 - new_start.0 + 1,
                w == new_end.1 - new_start.1 + 1,
                new_start.0 + h - 1 <= u32::MAX,
                new_start.1 + w - 1 <= u32::MAX,
                self@.wf(),
                rows@.len() == r,
                forall|i: int, c: int|
                    0 <= i < r && 0 <= c < w ==> #[trigger] rows@[i]@[c] == self@.cell_or_empty(
                        new_start.0 + i,
                        new_start.1 + c,
                    ),
                forall|i: int| 0 <= i < r ==> (#[trigger] rows@[i])@.len() == w,
            decreases h - r,
        {
            let mut row: Vec<CellValue> = Vec::new();
            let mut c: usize = 0;
            let ar: u32 = new_start.0 + r as u32;
            while c < w
                invariant
                    c <= w,
                    w == new_end.1 - new_start.1 + 1,
                    new_start.1 + w - 1 <= u32::MAX,
                    ar == new_start.0 + r,
                    self@.wf(),
                    row@.len() == c,
                    forall|j: int|
                        0 <= j < c ==> row@[j] == self@.cell_or_empty(ar as int, new_start.1 + j),
                decreases w - c,
            {
                let ac: u32 = new_start.1 + c as u32;
                let cell = match self.get_value((ar, ac)) {
                    Option::Some(v) => v.clone(),
                    Option::None => CellValue::Empty,
                };
                row.push(cell);
                c += 1;
            }
            rows.push(row);
            r += 1;
        }
        let res = CellRange { start: Option::Some(new_start), cells: rows };
        proof {
            assert(forall|i: int| 0 <= i < h ==> (#[trigger] res@.grid[i]).len() == w);
            assert(res@.grid.len() == h);
        }
        res
    }
}

impl Clone for CellRange {
    /// A clone spans the same coordinates and holds the same cells.
    fn clone(&self) -> (res: Self)
        ensures
            res@ == self@,
    {
        let mut cells: Vec<Vec<CellValue>> = Vec::new();
        let mut i: usize = 0;
        while i < self.cells.len()
            invariant
                i <= self.cells@.len(),
                cells@.len() == i,
                forall|j: int| 0 <= j < i ==> (#[trigger] cells@[j])@ == self.cells@[j]@,
            decreases self.cells@.len() - i,
        {
            cells.push(clone_row(&self.cells[i]));
            i += 1;
        }
        let res = CellRange { start: self.start, cells };
        proof {
            assert(res@.grid =~= self@.grid);
            assert(res@ =~= self@);
        }
        res
    }
}

/// The row count a materialization is asked for: the given limit, else one
/// past the declared end row, else zero for an empty range.
pub open spec fn effective_row_limit(v: RangeView, row_limit: Option<u32>) -> int {
    match row_limit {
        Option::Some(n) => n as int,
        Option::None => match v.start {
            Option::None => 0,
            Option::Some(_) => v.end_row() + 1,
        },
    }
}

/// What bulk materialization of a range produces.
///
/// With `skip_empty_area` set, or for a range already anchored at the
/// origin, the spanned rows themselves come out, truncated to the row
/// limit: rows above a late start are absent, not padded. Otherwise the
/// output is anchored at the origin: each row `r` up to the lesser of the
/// limit and the end row lists columns `0 ..= end_col`, reading `Empty`
/// wherever the grid holds no cell — the area above and left of the
/// declared start included.
pub open spec fn materialized(v: RangeView, skip_empty_area: bool, row_limit: Option<
    u32,
>) -> Seq<Seq<CellValue>> {
    let n = effective_row_limit(v, row_limit);
    if v.start is None {
        Seq::empty()
    } else if skip_empty_area || v.start == Option::Some((0u32, 0u32)) {
        v.grid.take(vstd::math::min(n, v.height() as int))
    } else {
        Seq::new(
            vstd::math::min(n, v.end_row() + 1) as nat,
            |r: int| Seq::new((v.end_col() + 1) as nat, |c: int| v.cell_or_empty(r, c)),
        )
    }
}

/// For a range anchored at the origin, materialization does not depend on
/// `skip_empty_area`: there is no empty area above the start to skip or
/// keep.
pub proof fn lemma_materialize_origin_independent(v: RangeView, row_limit: Option<u32>)
    requires
        v.start == Option::Some((0u32, 0u32)),
    ensures
        materialized(v, false, row_limit) == materialized(v, true, row_limit),
{
}

} // verus!
