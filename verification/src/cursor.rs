//! Forward-only, single-pass row iteration with counter-driven padding.

use vstd::prelude::*;

use std::sync::Arc;

use crate::cell::CellValue;
use crate::cell::empty_text_cell;
use crate::cell::is_padding_row;
use crate::range::CellRange;
use crate::range::RangeView;
use crate::range::clone_row;

verus! {

/// The position counter after one more call: it counts up and then stays
/// at the largest representable value.
pub open spec fn step_position(p: int) -> int {
    if p < u32::MAX as int {
        p + 1
    } else {
        p
    }
}

/// Whether a call made in state `s = (position, rows consumed)` pads: the
/// incremented counter has not yet passed the declared start row `sr`.
pub open spec fn emits_padding(s: (int, int), sr: int) -> bool {
    step_position(s.0) <= sr
}

/// The cursor state after a call made in state `s`, over a range with
/// declared start row `sr` and `h` data rows: the counter advances, and a
/// data row is consumed exactly when the call neither pads nor finds the
/// rows exhausted.
pub open spec fn step_state(s: (int, int), sr: int, h: int) -> (int, int) {
    let p = step_position(s.0);
    if p <= sr {
        (p, s.1)
    } else if s.1 < h {
        (p, s.1 + 1)
    } else {
        (p, s.1)
    }
}

/// The state a fresh cursor reaches after `k` calls.
pub open spec fn state_after(k: nat, sr: int, h: int) -> (int, int)
    decreases k,
{
    if k == 0 {
        (0, 0)
    } else {
        step_state(state_after((k - 1) as nat, sr, h), sr, h)
    }
}

/// After `k` calls on a fresh cursor the counter reads `k` (saturated) and
/// the number of data rows consumed is `k - sr` clipped to `[0, h]`.
pub proof fn lemma_cursor_state(k: nat, sr: int, h: int)
    requires
        0 <= sr,
        0 <= h,
        sr + h <= u32::MAX as int,
    ensures
        k <= sr ==> state_after(k, sr, h) == (k as int, 0int),
        sr < k <= sr + h ==> state_after(k, sr, h) == (k as int, k - sr),
        k > sr + h ==> state_after(k, sr, h) == (
            (if k < u32::MAX as int {
                k as int
            } else {
                u32::MAX as int
            }),
            h,
        ),
    decreases k,
{
    if k > 0 {
        lemma_cursor_state((k - 1) as nat, sr, h);
    }
}

/// The padding law: on a fresh cursor over a range with declared start row
/// `sr` and `h` data rows, the k-th call (counting from one) pads for
/// `k <= sr`, consumes data row `k - sr - 1` for `sr < k <= sr + h`, and
/// finds the rows exhausted past that: exactly `sr` padding rows come out
/// before the first data row.
pub proof fn lemma_padding_prefix(k: nat, sr: int, h: int)
    requires
        1 <= k,
        0 <= sr,
        1 <= h,
        sr + h <= u32::MAX as int,
    ensures
        k <= sr ==> emits_padding(state_after((k - 1) as nat, sr, h), sr),
        sr < k <= sr + h ==> !emits_padding(state_after((k - 1) as nat, sr, h), sr)
            && state_after((k - 1) as nat, sr, h).1 == k - sr - 1,
        k > sr + h ==> !emits_padding(state_after((k - 1) as nat, sr, h), sr) && state_after(
            (k - 1) as nat,
            sr,
            h,
        ).1 >= h,
{
    lemma_cursor_state((k - 1) as nat, sr, h);
}

/// A forward-only iterator over the rows of a shared [`CellRange`].
///
/// The cursor holds its own counted reference to the range, so it stays
/// usable however long its originating view lives. Rows above the declared
/// start are synthesized: one row of empty-text cells per row index from
/// zero up to the start row, driven purely by the position counter. After
/// that the spanned rows come out in order, and then nothing. The counter
/// saturates at the largest `u32`, which keeps an exhausted cursor
/// exhausted however often it is polled.
pub struct CalamineCellIterator {
    position: u32,
    start: (u32, u32),
    empty_row: Vec<CellValue>,
    row_index: usize,
    range: Arc<CellRange>,
}

impl CalamineCellIterator {
    /// The range the cursor draws from.
    pub closed spec fn range_view(self) -> RangeView {
        self.range@
    }

    /// The declared start coordinate the padding counts against.
    pub closed spec fn start_spec(self) -> (u32, u32) {
        self.start
    }

    /// The padding row the cursor emits for rows above the declared start.
    pub closed spec fn padding_row(self) -> Seq<CellValue> {
        self.empty_row@
    }

    /// The cursor's model state: the position counter and the count of
    /// data rows already consumed.
    pub closed spec fn state(self) -> (int, int) {
        (self.position as int, self.row_index as int)
    }

    /// Internal consistency: the range is non-empty and well formed, the
    /// stored start is the range's, the padding row has the range's width,
    /// and no more rows were consumed than the range spans.
    pub closed spec fn wf(self) -> bool {
        &&& self.range@.wf()
        &&& self.range@.start == Option::Some(self.start)
        &&& is_padding_row(self.empty_row@, self.range@.width() as int)
        &&& self.row_index <= self.range@.height()
    }

    /// Builds a fresh cursor over a shared non-empty range.
    pub fn from_range(range: Arc<CellRange>) -> (res: Self)
        requires
            range@.wf(),
            range@.start is Some,
        ensures
            res.wf(),
            res.range_view() == range@,
            res.start_spec() == range@.start->0,
            res.state() == (0int, 0int),
            is_padding_row(res.padding_row(), range@.width() as int),
    {
        let width = range.width();
        let mut empty_row: Vec<CellValue> = Vec::new();
        let mut i: usize = 0;
        while i < width
            invariant
                i <= width,
                empty_row@.len() == i,
                forall|j: int| 0 <= j < i ==> crate::cell::is_empty_text(#[trigger] empty_row@[j]),
            decreases width - i,
        {
            empty_row.push(empty_text_cell());
            i += 1;
        }
        let start = match range.start() {
            Option::Some(s) => s,
            Option::None => {
                proof {
                    assert(false);
                }
                (0, 0)
            },
        };
        CalamineCellIterator { position: 0, start, empty_row, row_index: 0, range }
    }

    /// One step of the iteration protocol: advances the counter, then pads
    /// while the counter has not passed the declared start row, then hands
    /// out the spanned rows in order, then nothing.
    pub fn next(&mut self) -> (res: Option<Vec<CellValue>>)
        requires
            old(self).wf(),
        ensures
            final(self).wf(),
            final(self).start_spec() == old(self).start_spec(),
            final(self).range_view() == old(self).range_view(),
            final(self).padding_row() == old(self).padding_row(),
            final(self).state() == step_state(
                old(self).state(),
                old(self).start_spec().0 as int,
                old(self).range_view().height() as int,
            ),
            emits_padding(old(self).state(), old(self).start_spec().0 as int) ==> (res matches Some(
                row,
            ) && row@ == old(self).padding_row()),
            !emits_padding(old(self).state(), old(self).start_spec().0 as int) && old(self).state().1
                < old(self).range_view().height() ==> (res matches Some(row) && row@ == old(
                self,
            ).range_view().grid[old(self).state().1]),
            !emits_padding(old(self).state(), old(self).start_spec().0 as int) && old(
                self,
            ).state().1 >= old(self).range_view().height() ==> res is None,
    {
        self.position = if self.position < u32::MAX {
            self.position + 1
        } else {
            self.position
        };
        if self.position > self.start.0 {
            if self.row_index < self.range.height() {
                let row = clone_row(self.range.row(self.row_index));
                self.row_index = self.row_index + 1;
                Option::Some(row)
            } else {
                Option::None
            }
        } else {
            Option::Some(clone_row(&self.empty_row))
        }
    }
}

} // verus!
