use sheetgrid::CalamineCellIterator;
use sheetgrid::CalamineSheet;
use sheetgrid::CellRange;
use sheetgrid::CellValue;
use sheetgrid::MergeError;
use sheetgrid::SheetMetadata;
use sheetgrid::SheetTypeEnum;
use sheetgrid::SheetVisibleEnum;

fn txt(s: &str) -> CellValue {
    CellValue::Text(s.to_string())
}

fn grid(rows: Vec<Vec<&str>>) -> Vec<Vec<CellValue>> {
    rows.into_iter()
        .map(|r| r.into_iter().map(txt).collect())
        .collect()
}

fn sheet(start_row: u32, start_col: u32, rows: Vec<Vec<&str>>) -> CalamineSheet {
    let range = CellRange::new(start_row, start_col, grid(rows)).unwrap();
    CalamineSheet::new("test".to_string(), range)
}

#[test]
fn dimensions_of_plain_range() {
    let s = sheet(0, 0, vec![vec!["a", "b"], vec!["c", "d"], vec!["e", "f"]]);
    assert_eq!(s.height(), 3);
    assert_eq!(s.width(), 2);
    assert_eq!(s.total_height(), 2);
    assert_eq!(s.total_width(), 1);
    assert_eq!(s.start(), Some((0, 0)));
    assert_eq!(s.end(), Some((2, 1)));
}

#[test]
fn dimensions_of_offset_range() {
    // The declared start is (1, 0): height and total_height diverge.
    let s = sheet(1, 0, vec![vec!["a", "b"], vec!["c", "d"], vec!["e", "f"]]);
    assert_eq!(s.height(), 3);
    assert_eq!(s.width(), 2);
    assert_eq!(s.total_height(), 3);
    assert_eq!(s.total_width(), 1);
    assert_eq!(s.start(), Some((1, 0)));
    assert_eq!(s.end(), Some((3, 1)));
}

#[test]
fn dimensions_of_empty_range() {
    let s = CalamineSheet::new("empty".to_string(), CellRange::empty());
    assert_eq!(s.height(), 0);
    assert_eq!(s.width(), 0);
    assert_eq!(s.total_height(), 0);
    assert_eq!(s.total_width(), 0);
    assert_eq!(s.start(), None);
    assert_eq!(s.end(), None);
    assert!(s.materialize(true, None).is_empty());
    assert!(s.materialize(false, None).is_empty());
}

#[test]
fn constructor_rejects_bad_grids() {
    assert!(CellRange::new(0, 0, Vec::new()).is_none());
    assert!(CellRange::new(0, 0, vec![Vec::new(), Vec::new()]).is_none());
    assert!(CellRange::new(0, 0, grid(vec![vec!["a", "b"], vec!["c"]])).is_none());
    assert!(CellRange::new(u32::MAX, 0, grid(vec![vec!["a"], vec!["b"]])).is_none());
    assert!(CellRange::new(u32::MAX, 0, grid(vec![vec!["a"]])).is_some());
}

#[test]
fn materialize_origin_range_ignores_skip_flag() {
    let s = sheet(0, 0, vec![vec!["a", "b"], vec!["c", "d"]]);
    let kept = s.materialize(false, None);
    let skipped = s.materialize(true, None);
    assert_eq!(kept, skipped);
    assert_eq!(kept, grid(vec![vec!["a", "b"], vec!["c", "d"]]));
}

#[test]
fn materialize_skip_true_drops_rows_above_start() {
    let s = sheet(2, 1, vec![vec!["a"], vec!["b"]]);
    let out = s.materialize(true, None);
    // The rows above the start are simply absent, not padded.
    assert_eq!(out, grid(vec![vec!["a"], vec!["b"]]));
}

#[test]
fn materialize_skip_false_pads_from_origin() {
    let s = sheet(1, 1, vec![vec!["a"]]);
    let out = s.materialize(false, None);
    assert_eq!(
        out,
        vec![
            vec![CellValue::Empty, CellValue::Empty],
            vec![CellValue::Empty, txt("a")],
        ]
    );
}

#[test]
fn materialize_row_limit_truncates() {
    let s = sheet(0, 0, vec![vec!["a"], vec!["b"], vec!["c"]]);
    assert_eq!(s.materialize(true, Some(2)), grid(vec![vec!["a"], vec!["b"]]));
    assert_eq!(s.materialize(true, Some(0)), Vec::<Vec<CellValue>>::new());
    // A limit past the end row changes nothing.
    assert_eq!(s.materialize(true, Some(9)), grid(vec![vec!["a"], vec!["b"], vec!["c"]]));
}

#[test]
fn materialize_row_limit_with_padding() {
    let s = sheet(2, 0, vec![vec!["a"], vec!["b"]]);
    let out = s.materialize(false, Some(1));
    assert_eq!(out, vec![vec![CellValue::Empty]]);
    let zero = s.materialize(false, Some(0));
    assert_eq!(zero, Vec::<Vec<CellValue>>::new());
    let full = s.materialize(false, None);
    assert_eq!(
        full,
        vec![
            vec![CellValue::Empty],
            vec![CellValue::Empty],
            vec![txt("a")],
            vec![txt("b")],
        ]
    );
}

#[test]
fn cursor_pads_exactly_start_row_rows() {
    let mut it = sheet(2, 1, vec![vec!["a", "b"], vec!["c", "d"]]).iter_rows();
    assert_eq!(it.next(), Some(vec![txt(""), txt("")]));
    assert_eq!(it.next(), Some(vec![txt(""), txt("")]));
    assert_eq!(it.next(), Some(vec![txt("a"), txt("b")]));
    assert_eq!(it.next(), Some(vec![txt("c"), txt("d")]));
    assert_eq!(it.next(), None);
    assert_eq!(it.next(), None);
}

#[test]
fn cursor_scenario_three_by_two() {
    // A 3x2 range declared to span (1, 0) ..= (3, 1).
    let s = sheet(1, 0, vec![vec!["a", "b"], vec!["c", "d"], vec!["e", "f"]]);
    assert_eq!(s.height(), 3);
    assert_eq!(s.width(), 2);
    assert_eq!(s.total_height(), 3);
    assert_eq!(s.total_width(), 1);
    let mut it = s.iter_rows();
    // One padding row for row 0, then the three data rows, then nothing.
    assert_eq!(it.next(), Some(vec![txt(""), txt("")]));
    assert_eq!(it.next(), Some(vec![txt("a"), txt("b")]));
    assert_eq!(it.next(), Some(vec![txt("c"), txt("d")]));
    assert_eq!(it.next(), Some(vec![txt("e"), txt("f")]));
    assert_eq!(it.next(), None);
}

#[test]
fn cursor_without_padding_starts_on_data() {
    let mut it = sheet(0, 0, vec![vec!["a"], vec!["b"]]).iter_rows();
    assert_eq!(it.next(), Some(vec![txt("a")]));
    assert_eq!(it.next(), Some(vec![txt("b")]));
    assert_eq!(it.next(), None);
}

#[test]
fn cursor_outlives_view() {
    let it: CalamineCellIterator;
    {
        let s = sheet(1, 0, vec![vec!["a"]]);
        it = s.iter_rows();
    }
    let mut it = it;
    assert_eq!(it.next(), Some(vec![txt("")]));
    assert_eq!(it.next(), Some(vec![txt("a")]));
    assert_eq!(it.next(), None);
}

#[test]
fn merge_invalid_region_row_order() {
    let mut s = sheet(0, 0, vec![vec!["a", "b"], vec!["c", "d"]]);
    // start_row > end_row fails whatever the columns say.
    assert_eq!(s.merge_cells(1, 0, 0, 1), Err(MergeError::InvalidRegion));
    assert_eq!(s.merge_cells(1, 1, 0, 0), Err(MergeError::InvalidRegion));
    assert_eq!(s.merge_cells(0, 1, 1, 0), Err(MergeError::InvalidRegion));
    assert_eq!(s.get_merged_cells().unwrap(), Vec::<(u32, u32, u32, u32)>::new());
    // The cells are untouched.
    assert_eq!(s.materialize(true, None), grid(vec![vec!["a", "b"], vec!["c", "d"]]));
}

#[test]
fn merge_out_of_bounds_at_height() {
    let mut s = sheet(0, 0, vec![vec!["a", "b"], vec!["c", "d"]]);
    // end_row == height(), one past the last valid row.
    assert_eq!(s.merge_cells(0, 0, 2, 1), Err(MergeError::OutOfBounds));
    assert_eq!(s.merge_cells(0, 0, 1, 2), Err(MergeError::OutOfBounds));
    assert_eq!(s.get_merged_cells().unwrap(), Vec::<(u32, u32, u32, u32)>::new());
    assert_eq!(s.materialize(true, None), grid(vec![vec!["a", "b"], vec!["c", "d"]]));
}

#[test]
fn merge_two_by_two_keeps_anchor() {
    let mut s = sheet(0, 0, vec![vec!["X", "b"], vec!["c", "d"]]);
    assert_eq!(s.merge_cells(0, 0, 1, 1), Ok(()));
    assert_eq!(s.get_value((0, 0)), Some(&txt("X")));
    assert_eq!(s.get_value((0, 1)), Some(&CellValue::Empty));
    assert_eq!(s.get_value((1, 0)), Some(&CellValue::Empty));
    assert_eq!(s.get_value((1, 1)), Some(&CellValue::Empty));
    assert_eq!(s.get_merged_cells().unwrap(), vec![(0, 0, 1, 1)]);
}

#[test]
fn merge_inner_region_leaves_rest() {
    let mut s = sheet(0, 0, vec![
        vec!["a", "b", "c"],
        vec!["d", "e", "f"],
        vec!["g", "h", "i"],
    ]);
    assert_eq!(s.merge_cells(0, 1, 1, 2), Ok(()));
    assert_eq!(
        s.materialize(true, None),
        vec![
            vec![txt("a"), txt("b"), CellValue::Empty],
            vec![txt("d"), CellValue::Empty, CellValue::Empty],
            vec![txt("g"), txt("h"), txt("i")],
        ]
    );
}

#[test]
fn merge_is_idempotent_in_snapshot() {
    let mut s = sheet(0, 0, vec![vec!["a", "b"], vec!["c", "d"]]);
    assert_eq!(s.merge_cells(0, 0, 1, 1), Ok(()));
    assert_eq!(s.merge_cells(0, 0, 1, 1), Ok(()));
    let snap = s.get_merged_cells().unwrap();
    assert_eq!(snap, vec![(0, 0, 1, 1)]);
    // A distinct, even overlapping, region is retained as its own entry.
    assert_eq!(s.merge_cells(0, 0, 0, 1), Ok(()));
    let snap = s.get_merged_cells().unwrap();
    assert_eq!(snap.len(), 2);
    assert!(snap.contains(&(0, 0, 1, 1)));
    assert!(snap.contains(&(0, 0, 0, 1)));
}

#[test]
fn merge_single_cell_region() {
    let mut s = sheet(0, 0, vec![vec!["a", "b"]]);
    assert_eq!(s.merge_cells(0, 1, 0, 1), Ok(()));
    assert_eq!(s.get_value((0, 0)), Some(&txt("a")));
    assert_eq!(s.get_value((0, 1)), Some(&txt("b")));
    assert_eq!(s.get_merged_cells().unwrap(), vec![(0, 1, 0, 1)]);
}

#[test]
fn merge_region_above_offset_start() {
    // The grid spans (1, 1) ..= (2, 2); the merge region (0, 0) ..= (1, 1)
    // passes the dimension check but only (1, 1) holds a cell: it is
    // cleared, since the anchor (0, 0) holds none.
    let mut s = sheet(1, 1, vec![vec!["a", "b"], vec!["c", "d"]]);
    assert_eq!(s.merge_cells(0, 0, 1, 1), Ok(()));
    assert_eq!(s.get_value((0, 0)), None);
    assert_eq!(s.get_value((1, 1)), Some(&CellValue::Empty));
    assert_eq!(s.get_value((1, 2)), Some(&txt("b")));
    assert_eq!(s.get_merged_cells().unwrap(), vec![(0, 0, 1, 1)]);
}

#[test]
fn merge_visible_to_new_cursor_only() {
    let mut s = sheet(0, 0, vec![vec!["X", "b"]]);
    let mut before = s.iter_rows();
    assert_eq!(s.merge_cells(0, 0, 0, 1), Ok(()));
    // The cursor obtained before the merge still reads the old rows.
    assert_eq!(before.next(), Some(vec![txt("X"), txt("b")]));
    // A cursor obtained after it sees the merged cells.
    let mut after = s.iter_rows();
    assert_eq!(after.next(), Some(vec![txt("X"), CellValue::Empty]));
}

#[test]
fn get_value_reads_absolute_coordinates() {
    let s = sheet(1, 1, vec![vec!["a", "b"], vec!["c", "d"]]);
    assert_eq!(s.get_value((0, 0)), None);
    assert_eq!(s.get_value((1, 1)), Some(&txt("a")));
    assert_eq!(s.get_value((2, 2)), Some(&txt("d")));
    assert_eq!(s.get_value((3, 1)), None);
    assert_eq!(s.get_value((1, 3)), None);
}

#[test]
fn metadata_equality_is_structural() {
    let a = SheetMetadata::new(
        "one".to_string(),
        SheetTypeEnum::WorkSheet,
        SheetVisibleEnum::Visible,
    );
    let b = SheetMetadata::new(
        "one".to_string(),
        SheetTypeEnum::WorkSheet,
        SheetVisibleEnum::Visible,
    );
    let c = SheetMetadata::new(
        "one".to_string(),
        SheetTypeEnum::ChartSheet,
        SheetVisibleEnum::Visible,
    );
    let d = SheetMetadata::new(
        "two".to_string(),
        SheetTypeEnum::WorkSheet,
        SheetVisibleEnum::Hidden,
    );
    assert!(a == b);
    assert!(a != c);
    assert!(a != d);
    let e = a.clone();
    assert!(e == b);
    assert_eq!(e.name, "one");
    assert_eq!(e.typ, SheetTypeEnum::WorkSheet);
    assert_eq!(e.visible, SheetVisibleEnum::Visible);
}

#[test]
fn sheet_name_is_kept() {
    let range = CellRange::new(0, 0, grid(vec![vec!["a"]])).unwrap();
    let s = CalamineSheet::new("sales".to_string(), range);
    assert_eq!(s.name, "sales");
}

#[test]
fn mixed_cell_values_flow_through() {
    let rows = vec![
        vec![CellValue::Int(-3), CellValue::Float(2.5f64.to_bits())],
        vec![CellValue::Bool(true), CellValue::Error("#DIV/0!".to_string())],
        vec![
            CellValue::DateTime(45000.25f64.to_bits()),
            CellValue::DurationIso("PT1H".to_string()),
        ],
    ];
    let range = CellRange::new(0, 0, rows.clone()).unwrap();
    let s = CalamineSheet::new("mixed".to_string(), range);
    assert_eq!(s.materialize(true, None), rows);
    let mut it = s.iter_rows();
    assert_eq!(it.next(), Some(rows[0].clone()));
    assert_eq!(it.next(), Some(rows[1].clone()));
    assert_eq!(it.next(), Some(rows[2].clone()));
    assert_eq!(it.next(), None);
}
