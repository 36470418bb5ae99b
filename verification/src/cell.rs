//! The per-cell datum of a sheet.

use vstd::prelude::*;

verus! {

/// One cell of a sheet, as handed over by the parsing collaborator.
///
/// The access layer treats cell contents as opaque: it moves them around,
/// and the only value it ever writes on its own is `Empty` (when a merge
/// clears a cell) and the empty text cell (when a cursor pads a row).
/// Interpreting the contents — in particular turning the bit patterns
/// below back into numbers — is the collaborator's concern.
#[derive(Debug, PartialEq, Eq)]
pub enum CellValue {
    /// A cell that holds nothing.
    Empty,
    /// A signed integer cell.
    Int(i64),
    /// A floating-point numeric cell, carried as its IEEE-754 bit pattern.
    Float(u64),
    /// A textual cell.
    Text(String),
    /// A boolean cell.
    Bool(bool),
    /// A date or time cell, carried as the bit pattern of its serial value.
    DateTime(u64),
    /// A date, time or date-time in ISO 8601 text form.
    DateTimeIso(String),
    /// A duration in ISO 8601 text form.
    DurationIso(String),
    /// An error cell, carrying the error's text.
    Error(String),
}

impl Clone for CellValue {
    /// A clone is the same value.
    fn clone(&self) -> (res: Self)
        ensures
            res == *self,
    {
        match self {
            CellValue::Empty => CellValue::Empty,
            CellValue::Int(i) => CellValue::Int(*i),
            CellValue::Float(bits) => CellValue::Float(*bits),
            CellValue::Text(s) => CellValue::Text(s.clone()),
            CellValue::Bool(b) => CellValue::Bool(*b),
            CellValue::DateTime(bits) => CellValue::DateTime(*bits),
            CellValue::DateTimeIso(s) => CellValue::DateTimeIso(s.clone()),
            CellValue::DurationIso(s) => CellValue::DurationIso(s.clone()),
            CellValue::Error(s) => CellValue::Error(s.clone()),
        }
    }
}

/// Whether a cell is a text cell holding the empty string: the padding
/// value a cursor emits for rows above the declared start.
pub open spec fn is_empty_text(c: CellValue) -> bool {
    c matches CellValue::Text(s) && s@ == Seq::<char>::empty()
}

/// A row of `w` empty-text cells.
pub open spec fn is_padding_row(r: Seq<CellValue>, w: int) -> bool {
    r.len() == w && forall|i: int| 0 <= i < w ==> is_empty_text(#[trigger] r[i])
}

/// The padding cell: a text cell holding the empty string.
pub fn empty_text_cell() -> (res: CellValue)
    ensures
        is_empty_text(res),
{
    CellValue::Text(String::new())
}

} // verus!
