use sheet_values::cell::{CellValue, RawCell};
use sheet_values::errors::Error;
use sheet_values::range::Range;
use sheet_values::sheet::{
    CalamineSheet, SheetMetadata, SheetTypeEnum, SheetVisibleEnum,
};

fn int_grid(start_row: u32, start_col: u32, rows: &[&[i64]]) -> Range<RawCell> {
    let cells: Vec<Vec<RawCell>> = rows
        .iter()
        .map(|r| r.iter().map(|v| RawCell::Int(*v)).collect())
        .collect();
    Range::new(start_row, start_col, cells)
}

fn sheet_2x2_at(start_row: u32, start_col: u32) -> CalamineSheet {
    let range = int_grid(start_row, start_col, &[&[1, 2], &[3, 4]]);
    CalamineSheet::new("s".to_string(), range, None, None)
}

#[test]
fn metadata_carries_its_fields() {
    let m = SheetMetadata::new(
        "Sheet1".to_string(),
        SheetTypeEnum::WorkSheet,
        SheetVisibleEnum::Visible,
    );
    assert_eq!(m.name(), "Sheet1");
    assert_eq!(m.typ(), SheetTypeEnum::WorkSheet);
    assert_eq!(m.visible(), SheetVisibleEnum::Visible);
}

#[test]
fn dimensions_derive_from_bounds() {
    let sheet = sheet_2x2_at(1, 1);
    assert_eq!(sheet.height(), 2);
    assert_eq!(sheet.width(), 2);
    assert_eq!(sheet.start(), Some((1, 1)));
    assert_eq!(sheet.end(), Some((2, 2)));
    assert_eq!(sheet.total_height(), 2);
    assert_eq!(sheet.total_width(), 2);
}

#[test]
fn empty_sheet_has_no_bounds() {
    let sheet = CalamineSheet::new("e".to_string(), Range::empty(), None, None);
    assert_eq!(sheet.height(), 0);
    assert_eq!(sheet.width(), 0);
    assert_eq!(sheet.start(), None);
    assert_eq!(sheet.end(), None);
    assert_eq!(sheet.total_height(), 0);
    assert_eq!(sheet.total_width(), 0);
    assert!(sheet.to_list(true, None).is_empty());
    assert!(sheet.to_list(false, None).is_empty());
}

#[test]
fn to_list_skipping_returns_used_area() {
    let sheet = sheet_2x2_at(1, 1);
    let rows = sheet.to_list(true, None);
    assert_eq!(rows.len(), 2);
    assert_eq!(rows[0].len(), 2);
    assert_eq!(rows[0], vec![CellValue::Int(1), CellValue::Int(2)]);
    assert_eq!(rows[1], vec![CellValue::Int(3), CellValue::Int(4)]);
}

#[test]
fn to_list_unskipped_anchors_at_origin() {
    let sheet = sheet_2x2_at(1, 1);
    let rows = sheet.to_list(false, None);
    assert_eq!(rows.len(), 3);
    for row in &rows {
        assert_eq!(row.len(), 3);
    }
    assert_eq!(rows[0], vec![CellValue::Empty, CellValue::Empty, CellValue::Empty]);
    assert_eq!(rows[1][0], CellValue::Empty);
    assert_eq!(rows[1][1], CellValue::Int(1));
    assert_eq!(rows[1][2], CellValue::Int(2));
    assert_eq!(rows[2][1], CellValue::Int(3));
    assert_eq!(rows[2][2], CellValue::Int(4));
}

#[test]
fn to_list_caps_at_nrows() {
    let sheet = sheet_2x2_at(1, 1);
    let rows = sheet.to_list(true, Some(1));
    assert_eq!(rows.len(), 1);
    assert_eq!(rows[0], vec![CellValue::Int(1), CellValue::Int(2)]);
    // A cap above the available rows returns everything without error.
    let rows = sheet.to_list(true, Some(100));
    assert_eq!(rows.len(), 2);
    // Without skipping, the cap counts absolute rows from the origin.
    let rows = sheet.to_list(false, Some(1));
    assert_eq!(rows.len(), 1);
    assert_eq!(rows[0], vec![CellValue::Empty, CellValue::Empty, CellValue::Empty]);
}

#[test]
fn iter_rows_yields_synthetic_then_real_then_stops() {
    let range = int_grid(2, 1, &[&[7, 8], &[9, 10]]);
    let sheet = CalamineSheet::new("s".to_string(), range, None, None);
    let mut it = sheet.iter_rows();
    assert_eq!(it.height(), 2);
    assert_eq!(it.width(), 2);
    // Exactly start.row synthetic all-empty rows first.
    for _ in 0..2 {
        let row = it.next_row().expect("synthetic row");
        assert_eq!(
            row,
            vec![
                CellValue::String(String::new()),
                CellValue::String(String::new()),
            ]
        );
    }
    // Then exactly height() real rows.
    assert_eq!(
        it.next_row().expect("first real row"),
        vec![CellValue::Int(7), CellValue::Int(8)]
    );
    assert_eq!(
        it.next_row().expect("second real row"),
        vec![CellValue::Int(9), CellValue::Int(10)]
    );
    // Then exhaustion, for good.
    assert!(it.next_row().is_none());
    assert!(it.next_row().is_none());
    assert_eq!(it.position(), 4);
}

#[test]
fn iter_rows_on_origin_sheet_has_no_synthetic_rows() {
    let sheet = sheet_2x2_at(0, 0);
    let mut it = sheet.iter_rows();
    assert_eq!(
        it.next_row().expect("row"),
        vec![CellValue::Int(1), CellValue::Int(2)]
    );
}

#[test]
fn iter_formulas_fails_without_capture() {
    let sheet = sheet_2x2_at(0, 0);
    match sheet.iter_formulas() {
        Err(Error::FormulasDisabled) => {}
        _ => panic!("expected FormulasDisabled"),
    }
}

#[test]
fn iter_formulas_walks_data_bounds() {
    let data = int_grid(1, 1, &[&[1, 2], &[3, 4]]);
    // The formula range only covers one cell inside the data bounds.
    let formulas = Range::new(2, 2, vec![vec!["=SUM(A1:A2)".to_string()]]);
    let sheet = CalamineSheet::new("s".to_string(), data, Some(formulas), None);
    let mut it = sheet.iter_formulas().expect("formula iterator");
    assert_eq!(it.height(), 2);
    assert_eq!(it.width(), 2);
    let first = it.next_row().expect("row inside data bounds");
    assert_eq!(first, vec!["".to_string(), "".to_string()]);
    let second = it.next_row().expect("row inside data bounds");
    assert_eq!(second, vec!["".to_string(), "=SUM(A1:A2)".to_string()]);
    assert!(it.next_row().is_none());
}

#[test]
fn merged_cell_ranges_pass_through() {
    let rects = vec![((0, 0), (1, 1)), ((2, 0), (2, 3))];
    let sheet = CalamineSheet::new(
        "s".to_string(),
        int_grid(0, 0, &[&[1]]),
        None,
        Some(rects.clone()),
    );
    assert_eq!(sheet.merged_cell_ranges(), Some(rects));
    let bare = sheet_2x2_at(0, 0);
    assert_eq!(bare.merged_cell_ranges(), None);
}

#[test]
fn sheet_name_is_kept() {
    let sheet = sheet_2x2_at(0, 0);
    assert_eq!(sheet.name(), "s");
}

#[test]
fn slice_clamps_out_of_bound_end() {
    let range = int_grid(1, 1, &[&[1, 2], &[3, 4]]);
    // `to` far past the used area is clamped, not an error.
    let s = range.slice((2, 1), (100, 100));
    assert_eq!(s.start(), Some((2, 1)));
    assert_eq!(s.end(), Some((2, 2)));
    assert_eq!(s.height(), 1);
    assert_eq!(s.width(), 2);
    assert_eq!(s.get_value((2, 1)), Some(&RawCell::Int(3)));
    assert_eq!(s.get_value((2, 2)), Some(&RawCell::Int(4)));
    assert_eq!(s.get_value((1, 1)), None);
}

#[test]
fn slice_outside_used_area_is_empty() {
    let range = int_grid(1, 1, &[&[1, 2], &[3, 4]]);
    let s = range.slice((5, 5), (9, 9));
    assert_eq!(s.start(), None);
    assert_eq!(s.height(), 0);
}

#[test]
fn bounds_at_the_top_of_the_coordinate_space() {
    // A single cell at the largest representable position.
    let range = int_grid(u32::MAX, u32::MAX, &[&[9]]);
    let sheet = CalamineSheet::new("far".to_string(), range, None, None);
    assert_eq!(sheet.start(), Some((u32::MAX, u32::MAX)));
    assert_eq!(sheet.end(), Some((u32::MAX, u32::MAX)));
    assert_eq!(sheet.height(), 1);
    assert_eq!(sheet.width(), 1);
    let rows = sheet.to_list(true, None);
    assert_eq!(rows, vec![vec![CellValue::Int(9)]]);
}
