//! The sheet-level facade: dimension queries, bulk materialization,
//! merged-cell mutation and cursor construction over one shared range.

use vstd::prelude::*;
use vstd::seq_lib::group_to_multiset_ensures;

use std::sync::Arc;

use crate::cell::CellValue;
use crate::cursor::CalamineCellIterator;
use crate::range::CellRange;
use crate::range::RangeView;
use crate::range::effective_row_limit;
use crate::range::materialized;

verus! {

/// Why a merge request was refused, or why the overlay could not be read.
#[derive(Clone, Copy, Debug, PartialEq, Eq, Structural)]
pub enum MergeError {
    /// The region's start lies after its end on some axis.
    InvalidRegion,
    /// The region reaches past the sheet's current dimensions.
    OutOfBounds,
    /// The overlay's guard could not be acquired. With the overlay owned
    /// exclusively by its sheet, the guard is the borrow itself and this
    /// error is never produced.
    AccessFailure,
}

/// Whether a merge rectangle is well ordered on both axes.
pub open spec fn region_ordered(sr: int, sc: int, er: int, ec: int) -> bool {
    sr <= er && sc <= ec
}

/// Whether a merge rectangle lies within a sheet of `height` by `width`
/// cells.
pub open spec fn region_in_bounds(er: int, ec: int, height: int, width: int) -> bool {
    er < height && ec < width
}

/// What a successful merge of the rectangle `(sr, sc) ..= (er, ec)` leaves
/// at the grid coordinate `(r, c)`: every cell of the region is cleared
/// except the anchor `(sr, sc)`, which keeps its value; cells outside the
/// region are untouched.
pub open spec fn merge_result_cell(
    v: RangeView,
    sr: int,
    sc: int,
    er: int,
    ec: int,
    r: int,
    c: int,
) -> CellValue {
    if sr <= r <= er && sc <= c <= ec && !(r == sr && c == sc) {
        CellValue::Empty
    } else {
        v.cell(r, c)
    }
}

/// Relies on std::sync::Arc::clone: the clone is a handle to the same
/// value.
#[verifier::external_body]
fn share_range(range: &Arc<CellRange>) -> (res: Arc<CellRange>)
    ensures
        res == *range,
{
    Arc::clone(range)
}

/// Whether the overlay already records this exact rectangle.
fn contains_tuple(v: &Vec<(u32, u32, u32, u32)>, t: (u32, u32, u32, u32)) -> (res: bool)
    ensures
        res == v@.contains(t),
{
    let mut i: usize = 0;
    while i < v.len()
        invariant
            i <= v@.len(),
            forall|j: int| 0 <= j < i ==> v@[j] != t,
        decreases v@.len() - i,
    {
        let e = v[i];
        if e.0 == t.0 && e.1 == t.1 && e.2 == t.2 && e.3 == t.3 {
            proof {
                assert(v@[i as int] == t);
            }
            return true;
        }
        i += 1;
    }
    false
}

/// One sheet opened for data access: its name, shared ownership of its
/// cell range, and the overlay of merged regions.
///
/// A merge rewrites a private copy of the range and publishes the copy
/// back as the sheet's range: cursors already obtained keep reading the
/// rows they started from, while later queries and cursors see the merged
/// cells.
pub struct CalamineSheet {
    /// The sheet's name, copied from its metadata at construction.
    pub name: String,
    range: Arc<CellRange>,
    merged_cells: Vec<(u32, u32, u32, u32)>,
}

impl CalamineSheet {
    /// The sheet's name.
    pub closed spec fn name_spec(self) -> String {
        self.name
    }

    /// The sheet's current range.
    pub closed spec fn range_view(self) -> RangeView {
        self.range@
    }

    /// The recorded merge regions, in the order they were first merged.
    pub closed spec fn merged_seq(self) -> Seq<(u32, u32, u32, u32)> {
        self.merged_cells@
    }

    /// The recorded merge regions as a set.
    pub open spec fn merged_set(self) -> Set<(u32, u32, u32, u32)> {
        self.merged_seq().to_set()
    }

    /// Internal consistency: the range is well formed and no region is
    /// recorded twice.
    pub closed spec fn wf(self) -> bool {
        &&& self.range@.wf()
        &&& self.merged_cells@.no_duplicates()
    }

    /// Opens a sheet over a range, with an empty overlay.
    pub fn new(name: String, range: CellRange) -> (res: Self)
        requires
            range@.wf(),
        ensures
            res.wf(),
            res.name_spec() == name,
            res.range_view() == range@,
            res.merged_seq() == Seq::<(u32, u32, u32, u32)>::empty(),
    {
        CalamineSheet { name, range: Arc::new(range), merged_cells: Vec::new() }
    }

    /// The count of rows the declared range spans, zero when empty.
    pub fn height(&self) -> (res: usize)
        ensures
            res == self.range_view().height(),
    {
        self.range.height()
    }

    /// The count of columns the declared range spans, zero when empty.
    pub fn width(&self) -> (res: usize)
        ensures
            res == self.range_view().width(),
    {
        self.range.width()
    }

    /// The declared end row itself, zero when the range is empty: distinct
    /// from `height` whenever the range does not start at the origin.
    pub fn total_height(&self) -> (res: u32)
        requires
            self.wf(),
        ensures
            res as int == (match self.range_view().end() {
                Option::Some(e) => e.0 as int,
                Option::None => 0,
            }),
    {
        match self.range.end() {
            Option::Some(e) => e.0,
            Option::None => 0,
        }
    }

    /// The declared end column itself, zero when the range is empty:
    /// distinct from `width` whenever the range does not start at the
    /// origin.
    pub fn total_width(&self) -> (res: u32)
        requires
            self.wf(),
        ensures
            res as int == (match self.range_view().end() {
                Option::Some(e) => e.1 as int,
                Option::None => 0,
            }),
    {
        match self.range.end() {
            Option::Some(e) => e.1,
            Option::None => 0,
        }
    }

    /// The declared start coordinate, `None` for an empty range.
    pub fn start(&self) -> (res: Option<(u32, u32)>)
        ensures
            res == self.range_view().start,
    {
        self.range.start()
    }

    /// The declared end coordinate, `None` for an empty range.
    pub fn end(&self) -> (res: Option<(u32, u32)>)
        requires
            self.wf(),
        ensures
            res == self.range_view().end(),
    {
        self.range.end()
    }

    /// The cell at an absolute coordinate, or `None` where the range holds
    /// no cell.
    pub fn get_value(&self, absolute_position: (u32, u32)) -> (res: Option<&CellValue>)
        requires
            self.wf(),
        ensures
            match res {
                Option::Some(cell) => self.range_view().in_grid(
                    absolute_position.0 as int,
                    absolute_position.1 as int,
                ) && *cell == self.range_view().cell(
                    absolute_position.0 as int,
                    absolute_position.1 as int,
                ),
                Option::None => !self.range_view().in_grid(
                    absolute_position.0 as int,
                    absolute_position.1 as int,
                ),
            },
    {
        self.range.get_value(absolute_position)
    }

    /// Bulk materialization of the range as rows of cells.
    pub fn materialize(&self, skip_empty_area: bool, row_limit: Option<u32>) -> (res: Vec<
        Vec<CellValue>,
    >)
        requires
            self.wf(),
        ensures
            res@.map_values(|v: Vec<CellValue>| v@) == materialized(
                self.range_view(),
                skip_empty_area,
                row_limit,
            ),
    {
        let ghost m = materialized(self.range_view(), skip_empty_area, row_limit);
        let n: u64 = match row_limit {
            Option::Some(k) => k as u64,
            Option::None => match self.range.end() {
                Option::Some(e) => e.0 as u64 + 1,
                Option::None => 0,
            },
        };
        proof {
            assert(n as int == effective_row_limit(self.range_view(), row_limit));
        }
        let out: Vec<Vec<CellValue>> = match self.range.start() {
            Option::None => Vec::new(),
            Option::Some(s) => {
                if skip_empty_area || (s.0 == 0 && s.1 == 0) {
                    let hh = self.range.height();
                    let k: usize = if n < hh as u64 {
                        n as usize
                    } else {
                        hh
                    };
                    self.range.rows_prefix(k)
                } else {
                    let e = match self.range.end() {
                        Option::Some(e) => e,
                        Option::None => {
                            proof {
                                assert(false);
                            }
                            (0, 0)
                        },
                    };
                    let carve_end_row: u32 = if n > e.0 as u64 {
                        e.0
                    } else {
                        n as u32
                    };
                    let carved = self.range.range((0, 0), (carve_end_row, e.1));
                    let ch = carved.height();
                    let k: usize = if n < ch as u64 {
                        n as usize
                    } else {
                        ch
                    };
                    let ghost cv = carved@;
                    let rows = carved.rows_prefix(k);
                    proof {
                        assert forall|i: int| 0 <= i < k implies rows@[i]@ =~= m[i] by {
                            assert(rows@[i]@ == cv.grid[i]);
                            assert(cv.grid[i].len() == cv.width());
                            assert forall|c: int| 0 <= c < cv.width() implies cv.grid[i][c]
                                == self.range_view().cell_or_empty(i, c) by {
                                assert(cv.grid[i][c] == self.range_view().cell_or_empty(
                                    0 + i,
                                    0 + c,
                                ));
                            }
                        }
                    }
                    rows
                }
            },
        };
        proof {
            assert(out@.map_values(|v: Vec<CellValue>| v@) =~= m);
        }
        out
    }

    /// A fresh forward-only cursor over the sheet's current range, for a
    /// sheet whose range is non-empty.
    pub fn iter_rows(&self) -> (res: CalamineCellIterator)
        requires
            self.wf(),
            self.range_view().start is Some,
        ensures
            res.wf(),
            res.range_view() == self.range_view(),
            res.start_spec() == self.range_view().start->0,
            res.state() == (0int, 0int),
            crate::cell::is_padding_row(res.padding_row(), self.range_view().width() as int),
    {
        CalamineCellIterator::from_range(share_range(&self.range))
    }

    /// Merges the rectangle `(start_row, start_col) ..= (end_row, end_col)`.
    ///
    /// A region whose start lies after its end on either axis is refused as
    /// `InvalidRegion`; one reaching past the sheet's current dimensions is
    /// refused as `OutOfBounds`; either refusal leaves the sheet untouched.
    /// On success every cell of the region except the anchor is cleared,
    /// the anchor keeps its value, and the region is recorded in the
    /// overlay — a second merge of the same rectangle records nothing new.
    pub fn merge_cells(
        &mut self,
        start_row: u32,
        start_col: u32,
        end_row: u32,
        end_col: u32,
    ) -> (res: Result<(), MergeError>)
        requires
            old(self).wf(),
        ensures
            final(self).wf(),
            final(self).name_spec() == old(self).name_spec(),
            !region_ordered(start_row as int, start_col as int, end_row as int, end_col as int)
                ==> (res == Result::<(), MergeError>::Err(MergeError::InvalidRegion) && *final(self)
                == *old(self)),
            region_ordered(start_row as int, start_col as int, end_row as int, end_col as int)
                && !region_in_bounds(
                end_row as int,
                end_col as int,
                old(self).range_view().height() as int,
                old(self).range_view().width() as int,
            ) ==> (res == Result::<(), MergeError>::Err(MergeError::OutOfBounds) && *final(self)
                == *old(self)),
            region_ordered(start_row as int, start_col as int, end_row as int, end_col as int)
                && region_in_bounds(
                end_row as int,
                end_col as int,
                old(self).range_view().height() as int,
                old(self).range_view().width() as int,
            ) ==> ({
                &&& res == Result::<(), MergeError>::Ok(())
                &&& final(self).range_view().start == old(self).range_view().start
                &&& final(self).range_view().height() == old(self).range_view().height()
                &&& final(self).range_view().width() == old(self).range_view().width()
                &&& forall|r: int, c: int|
                    old(self).range_view().in_grid(r, c) ==> final(self).range_view().cell(r, c)
                        == merge_result_cell(
                        old(self).range_view(),
                        start_row as int,
                        start_col as int,
                        end_row as int,
                        end_col as int,
                        r,
                        c,
                    )
                &&& final(self).merged_set() == old(self).merged_set().insert(
                    (start_row, start_col, end_row, end_col),
                )
                &&& (old(self).merged_seq().contains((start_row, start_col, end_row, end_col))
                    ==> final(self).merged_seq() == old(self).merged_seq())
                &&& (!old(self).merged_seq().contains((start_row, start_col, end_row, end_col))
                    ==> final(self).merged_seq() == old(self).merged_seq().push(
                    (start_row, start_col, end_row, end_col),
                ))
            }),
    {
        if start_row > end_row || start_col > end_col {
            return Result::Err(MergeError::InvalidRegion);
        }
        let h = self.range.height();
        let w = self.range.width();
        if end_row as usize >= h || end_col as usize >= w {
            return Result::Err(MergeError::OutOfBounds);
        }
        let ghost ov = old(self).range_view();
        let merged_value: Option<CellValue> = match self.range.get_value((start_row, start_col)) {
            Option::Some(cell) => Option::Some(cell.clone()),
            Option::None => Option::None,
        };
        let mut new_range = (*self.range).clone();
        let mut r: u64 = start_row as u64;
        while r <= end_row as u64
            invariant
                start_row as int <= r <= end_row as int + 1,
                start_row <= end_row,
                start_col <= end_col,
                (end_row as int) < ov.height(),
                (end_col as int) < ov.width(),
                ov.wf(),
                new_range@.wf(),
                new_range@.start == ov.start,
                new_range@.height() == ov.height(),
                new_range@.width() == ov.width(),
                (ov.in_grid(start_row as int, start_col as int) ==> merged_value
                    == Option::Some(ov.cell(start_row as int, start_col as int))),
                (!ov.in_grid(start_row as int, start_col as int) ==> merged_value is None),
                forall|ri: int, ci: int|
                    ov.in_grid(ri, ci) ==> #[trigger] new_range@.cell(ri, ci) == (
                    if start_row <= ri <= end_row && start_col <= ci <= end_col && ri < r && !(ri
                        == start_row && ci == start_col) {
                        CellValue::Empty
                    } else {
                        ov.cell(ri, ci)
                    }),
            decreases end_row as int + 1 - r,
        {
            let rr: u32 = r as u32;
            let mut c: u64 = start_col as u64;
            while c <= end_col as u64
                invariant
                    start_col as int <= c <= end_col as int + 1,
                    start_row as int <= rr <= end_row,
                    rr == r,
                    start_row <= end_row,
                    start_col <= end_col,
                    (end_row as int) < ov.height(),
                    (end_col as int) < ov.width(),
                    ov.wf(),
                    new_range@.wf(),
                    new_range@.start == ov.start,
                    new_range@.height() == ov.height(),
                    new_range@.width() == ov.width(),
                    (ov.in_grid(start_row as int, start_col as int) ==> merged_value
                        == Option::Some(ov.cell(start_row as int, start_col as int))),
                    (!ov.in_grid(start_row as int, start_col as int) ==> merged_value is None),
                    forall|ri: int, ci: int|
                        ov.in_grid(ri, ci) ==> #[trigger] new_range@.cell(ri, ci) == (
                        if start_row <= ri <= end_row && start_col <= ci <= end_col && (ri < rr
                            || (ri == rr && ci < c)) && !(ri == start_row && ci == start_col) {
                            CellValue::Empty
                        } else {
                            ov.cell(ri, ci)
                        }),
                decreases end_col as int + 1 - c,
            {
                let cc: u32 = c as u32;
                if rr == start_row && cc == start_col {
                    match &merged_value {
                        Option::Some(v) => {
                            new_range.set_value((rr, cc), v.clone());
                        },
                        Option::None => {},
                    }
                } else {
                    if new_range.has_cell((rr, cc)) {
                        new_range.set_value((rr, cc), CellValue::Empty);
                    }
                }
                c += 1;
            }
            r += 1;
        }
        self.range = Arc::new(new_range);
        let t = (start_row, start_col, end_row, end_col);
        let contained = contains_tuple(&self.merged_cells, t);
        if !contained {
            self.merged_cells.push(t);
        }
        proof {
            if contained {
                assert(self.merged_cells@.to_set() =~= old(self).merged_cells@.to_set().insert(t));
            } else {
                assert(self.merged_cells@ == old(self).merged_cells@.push(t));
                assert(self.merged_cells@.to_set() =~= old(self).merged_cells@.to_set().insert(t))
                    by {
                    Seq::lemma_push_to_set_commute(old(self).merged_cells@, t);
                }
                assert(self.merged_cells@.no_duplicates()) by {
                    assert(forall|j: int|
                        0 <= j < old(self).merged_cells@.len() ==> old(self).merged_cells@[j]
                            != t);
                }
            }
        }
        Result::Ok(())
    }

    /// A snapshot of the recorded merge regions. With the overlay owned by
    /// the sheet the guard is the borrow itself, so the snapshot always
    /// succeeds; the `AccessFailure` arm of [`MergeError`] names the one
    /// condition under which it could not.
    pub fn get_merged_cells(&self) -> (res: Result<Vec<(u32, u32, u32, u32)>, MergeError>)
        ensures
            res matches Ok(v) && v@ == self.merged_seq(),
    {
        let mut out: Vec<(u32, u32, u32, u32)> = Vec::new();
        let mut i: usize = 0;
        while i < self.merged_cells.len()
            invariant
                i <= self.merged_cells@.len(),
                out@ == self.merged_cells@.take(i as int),
            decreases self.merged_cells@.len() - i,
        {
            out.push(self.merged_cells[i]);
            proof {
                assert(out@ =~= self.merged_cells@.take(i as int + 1));
            }
            i += 1;
        }
        proof {
            assert(out@ =~= self.merged_cells@);
        }
        Result::Ok(out)
    }
}

/// After a successful merge of `(sr, sc) ..= (er, ec)`, every cell of the
/// region other than the anchor reads `Empty`, and the anchor `(sr, sc)`
/// reads its pre-merge value.
pub proof fn lemma_merge_clears_region(
    v: RangeView,
    sr: int,
    sc: int,
    er: int,
    ec: int,
    r: int,
    c: int,
)
    requires
        sr <= r <= er,
        sc <= c <= ec,
    ensures
        !(r == sr && c == sc) ==> merge_result_cell(v, sr, sc, er, ec, r, c) == CellValue::Empty,
        merge_result_cell(v, sr, sc, er, ec, sr, sc) == v.cell(sr, sc),
{
}

/// Inserting the same region into the recorded set twice leaves the set as
/// one insertion does: repeating a merge with identical arguments changes
/// nothing further.
pub proof fn lemma_merge_idempotent(s: Set<(u32, u32, u32, u32)>, t: (u32, u32, u32, u32))
    ensures
        s.insert(t).insert(t) == s.insert(t),
{
    assert(s.insert(t).insert(t) =~= s.insert(t));
}

/// A region present in a duplicate-free snapshot appears in it exactly
/// once.
pub proof fn lemma_recorded_once(s: Seq<(u32, u32, u32, u32)>, t: (u32, u32, u32, u32))
    requires
        s.no_duplicates(),
        s.contains(t),
    ensures
        s.to_multiset().count(t) == 1,
{
    broadcast use group_to_multiset_ensures;

    s.lemma_multiset_has_no_duplicates();
}

} // verus!
