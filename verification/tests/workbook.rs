use sheet_values::errors::Error;
use sheet_values::sheet::{SheetMetadata, SheetTypeEnum, SheetVisibleEnum};
use sheet_values::workbook::{
    supports_merged_cells, supports_tables, CalamineWorkbook, WorkbookType,
};

fn meta(name: &str) -> SheetMetadata {
    SheetMetadata::new(
        name.to_string(),
        SheetTypeEnum::WorkSheet,
        SheetVisibleEnum::Visible,
    )
}

fn workbook(t: WorkbookType, names: &[&str]) -> CalamineWorkbook {
    let sheet_names: Vec<String> = names.iter().map(|n| n.to_string()).collect();
    let metadata: Vec<SheetMetadata> = names.iter().map(|n| meta(n)).collect();
    CalamineWorkbook::open(Some("book.xlsx".to_string()), t, sheet_names, metadata)
}

#[test]
fn capability_matrix_is_exact() {
    assert!(!supports_tables(WorkbookType::Xls));
    assert!(supports_tables(WorkbookType::Xlsx));
    assert!(!supports_tables(WorkbookType::Xlsb));
    assert!(!supports_tables(WorkbookType::Ods));
    assert!(supports_merged_cells(WorkbookType::Xls));
    assert!(supports_merged_cells(WorkbookType::Xlsx));
    assert!(!supports_merged_cells(WorkbookType::Xlsb));
    assert!(!supports_merged_cells(WorkbookType::Ods));
}

#[test]
fn open_captures_metadata() {
    let wb = workbook(WorkbookType::Xlsx, &["A", "B"]);
    assert!(wb.is_open());
    assert_eq!(wb.path().as_deref(), Some("book.xlsx"));
    assert_eq!(wb.workbook_type(), WorkbookType::Xlsx);
    assert_eq!(wb.sheet_names(), &vec!["A".to_string(), "B".to_string()]);
    assert_eq!(wb.sheets_metadata().len(), 2);
    assert_eq!(wb.sheets_metadata()[1].name(), "B");
}

#[test]
fn table_names_not_supported_off_format() {
    let wb = workbook(WorkbookType::Ods, &["A"]);
    assert_eq!(wb.table_names(), Err(Error::TablesNotSupported));
}

#[test]
fn table_names_not_loaded_without_discovery() {
    let wb = workbook(WorkbookType::Xlsx, &["A"]);
    assert_eq!(wb.table_names(), Err(Error::TablesNotLoaded));
}

#[test]
fn table_names_returns_discovered_list() {
    let mut wb = workbook(WorkbookType::Xlsx, &["A"]);
    wb.set_table_names(vec!["T1".to_string(), "T2".to_string()]);
    assert_eq!(
        wb.table_names(),
        Ok(vec!["T1".to_string(), "T2".to_string()])
    );
}

#[test]
fn plan_load_tables_gates_by_format_and_lifecycle() {
    let wb = workbook(WorkbookType::Xlsb, &["A"]);
    assert_eq!(wb.plan_load_tables(), Err(Error::TablesNotSupported));
    let wb = workbook(WorkbookType::Xlsx, &["A"]);
    assert_eq!(wb.plan_load_tables(), Ok(()));
    let mut wb = workbook(WorkbookType::Xlsx, &["A"]);
    wb.close().unwrap();
    assert_eq!(wb.plan_load_tables(), Err(Error::WorkbookClosed));
}

#[test]
fn close_is_one_way_and_twice_fails() {
    let mut wb = workbook(WorkbookType::Xls, &["A"]);
    assert_eq!(wb.close(), Ok(()));
    assert!(!wb.is_open());
    assert_eq!(wb.close(), Err(Error::WorkbookClosed));
}

#[test]
fn closed_workbook_refuses_sheet_reads_but_keeps_metadata() {
    let mut wb = workbook(WorkbookType::Xlsx, &["A", "B"]);
    wb.close().unwrap();
    assert_eq!(wb.plan_get_sheet(), Err(Error::WorkbookClosed));
    // Cached metadata stays readable after close.
    assert_eq!(wb.sheet_names().len(), 2);
    assert_eq!(wb.path().as_deref(), Some("book.xlsx"));
}

#[test]
fn sheet_name_at_resolves_valid_indices() {
    let wb = workbook(WorkbookType::Xlsx, &["A", "B"]);
    assert_eq!(wb.sheet_name_at(0), Ok("A".to_string()));
    assert_eq!(wb.sheet_name_at(1), Ok("B".to_string()));
}

#[test]
fn sheet_name_at_fails_past_the_end() {
    let wb = workbook(WorkbookType::Xlsx, &["A", "B"]);
    match wb.sheet_name_at(2) {
        Err(Error::WorksheetNotFound(_)) => {}
        other => panic!("expected WorksheetNotFound, got {:?}", other),
    }
}

#[test]
fn plan_get_sheet_reports_merge_capability() {
    assert_eq!(workbook(WorkbookType::Xls, &["A"]).plan_get_sheet(), Ok(true));
    assert_eq!(workbook(WorkbookType::Xlsx, &["A"]).plan_get_sheet(), Ok(true));
    assert_eq!(workbook(WorkbookType::Xlsb, &["A"]).plan_get_sheet(), Ok(false));
    assert_eq!(workbook(WorkbookType::Ods, &["A"]).plan_get_sheet(), Ok(false));
}

#[test]
fn normalize_merged_cells_follows_the_format() {
    let rects = vec![((0, 0), (1, 1))];
    let xls = workbook(WorkbookType::Xls, &["A"]);
    assert_eq!(xls.normalize_merged_cells(Some(rects.clone())), Some(rects.clone()));
    assert_eq!(xls.normalize_merged_cells(None), None);
    let xlsx = workbook(WorkbookType::Xlsx, &["A"]);
    assert_eq!(xlsx.normalize_merged_cells(Some(rects.clone())), Some(rects.clone()));
    assert_eq!(xlsx.normalize_merged_cells(None), Some(vec![]));
    let ods = workbook(WorkbookType::Ods, &["A"]);
    assert_eq!(ods.normalize_merged_cells(Some(rects)), None);
}

#[test]
fn plan_get_table_runs_every_gate() {
    let ods = workbook(WorkbookType::Ods, &["A"]);
    assert_eq!(ods.plan_get_table("T"), Err(Error::TablesNotSupported));

    let unloaded = workbook(WorkbookType::Xlsx, &["A"]);
    assert_eq!(unloaded.plan_get_table("T"), Err(Error::TablesNotLoaded));

    let mut wb = workbook(WorkbookType::Xlsx, &["A"]);
    wb.set_table_names(vec!["T".to_string()]);
    assert_eq!(wb.plan_get_table("T"), Ok(()));
    match wb.plan_get_table("missing") {
        Err(Error::TableNotFound(name)) => assert_eq!(name, "missing"),
        other => panic!("expected TableNotFound, got {:?}", other),
    }

    wb.close().unwrap();
    assert_eq!(wb.plan_get_table("T"), Err(Error::WorkbookClosed));
}
