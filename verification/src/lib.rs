//! Access layer over a fully materialized spreadsheet range: dimension
//! queries, bulk row materialization, merged-cell mutation and padded
//! row-by-row iteration, all specified and verified.
//!
//! The parsing of a workbook file into a grid of cell values is the job of
//! an external collaborator; this crate works on the grid it produced.

pub mod cell;
pub mod cursor;
pub mod metadata;
pub mod range;
pub mod sheet;

pub use cell::CellValue;
pub use cursor::CalamineCellIterator;
pub use range::CellRange;
pub use sheet::CalamineSheet;
pub use sheet::MergeError;
pub use metadata::SheetMetadata;
pub use metadata::SheetTypeEnum;
pub use metadata::SheetVisibleEnum;
