use physis_capi::exd::{
    check_sheet_fits, flatten_excel_sheet, physis_ColumnData, physis_ExcelRows, physis_EXD, physis_exd_free_rows, physis_exd_get_row,
    physis_gamedata_free_sheet, to_c_field, to_c_row, ExcelRow, ExcelRowKind, ExcelSubrow, Field,
};

fn text_row(id: u32, s: &str, n: i32) -> ExcelRow {
    ExcelRow {
        row_id: id,
        kind: ExcelRowKind::SingleRow(vec![Field::String(s.as_bytes().to_vec()), Field::Int32(n)]),
    }
}

fn decode(c: &physis_ColumnData) -> String {
    match c {
        physis_ColumnData::String(b) => String::from_utf8(b[..b.len() - 1].to_vec()).unwrap(),
        _ => panic!("not text"),
    }
}

#[test]
fn table_three_rows_two_columns() {
    let rows = vec![text_row(0, "bar", 7), text_row(1, "foo", 42), text_row(2, "baz", -1)];
    let exd = flatten_excel_sheet(2, &rows);
    assert_eq!(exd.row_count, 3);
    assert_eq!(exd.column_count, 2);
    let row1 = &exd.rows[1].row_data[0];
    assert_eq!(decode(&row1.column_data[0]), "foo");
    assert!(matches!(row1.column_data[1], physis_ColumnData::Int32(42)));
    // each row: the row, two cells and one string
    assert_eq!(physis_gamedata_free_sheet(exd), 3 * 4);
}

#[test]
fn text_with_nul_gives_empty_sheet() {
    let rows = vec![text_row(0, "ok", 1), text_row(1, "b\0d", 2)];
    let exd = flatten_excel_sheet(2, &rows);
    assert_eq!(exd.row_count, 0);
    assert_eq!(exd.column_count, 0);
    assert!(exd.rows.is_empty());
    assert_eq!(physis_gamedata_free_sheet(exd), 0);
}

#[test]
fn wrong_width_gives_empty_sheet() {
    let rows = vec![text_row(0, "ok", 1)];
    let exd = flatten_excel_sheet(3, &rows);
    assert_eq!(exd.row_count, 0);
    assert!(exd.rows.is_empty());
}

#[test]
fn empty_sheet_flattens_and_frees() {
    let exd = flatten_excel_sheet(4, &Vec::new());
    assert_eq!(exd.row_count, 0);
    assert_eq!(exd.column_count, 4);
    assert_eq!(physis_gamedata_free_sheet(exd), 0);
    let d = physis_EXD::default();
    assert_eq!(d.column_count, 0);
    assert_eq!(physis_gamedata_free_sheet(d), 0);
}

#[test]
fn subrows_keep_ids_and_order() {
    let rows = vec![ExcelRow {
        row_id: 9,
        kind: ExcelRowKind::SubRows(vec![
            ExcelSubrow { subrow_id: 3, columns: vec![Field::Bool(true)] },
            ExcelSubrow { subrow_id: 5, columns: vec![Field::UInt8(200)] },
        ]),
    }];
    let mut exd = flatten_excel_sheet(1, &rows);
    assert_eq!(exd.rows[0].row_id, 9);
    assert_eq!(exd.rows[0].row_count, 2);
    assert_eq!(exd.rows[0].row_data[0].subrow_id, 3);
    assert_eq!(exd.rows[0].row_data[1].subrow_id, 5);
    assert!(matches!(exd.rows[0].row_data[1].column_data[0], physis_ColumnData::UInt8(200)));
    let entry = exd.rows.remove(0);
    // the row and two cells
    assert_eq!(physis_exd_free_rows(&exd, entry), 3);
}

#[test]
fn single_row_is_subrow_zero() {
    let exd = flatten_excel_sheet(2, &vec![text_row(4, "x", 1)]);
    assert_eq!(exd.rows[0].row_count, 1);
    assert_eq!(exd.rows[0].row_data[0].subrow_id, 0);
}

#[test]
fn get_row_finds_by_id() {
    let exd = flatten_excel_sheet(2, &vec![text_row(10, "a", 1), text_row(20, "b", 2)]);
    assert_eq!(physis_exd_get_row(&exd, 20), Some(1));
    assert_eq!(physis_exd_get_row(&exd, 10), Some(0));
    assert_eq!(physis_exd_get_row(&exd, 30), None);
}

#[test]
fn every_cell_kind_keeps_discriminant_and_payload() {
    let cells = vec![
        Field::String(b"s".to_vec()),
        Field::Bool(true),
        Field::Int8(-8),
        Field::UInt8(8),
        Field::Int16(-16),
        Field::UInt16(16),
        Field::Int32(-32),
        Field::UInt32(32),
        Field::Float32(1.5f32.to_bits()),
        Field::Int64(-64),
        Field::UInt64(64),
    ];
    let row = to_c_row(1, &cells).unwrap();
    let tags: Vec<u32> = row.column_data.iter().map(|c| c.discriminant()).collect();
    assert_eq!(tags, (0..11).collect::<Vec<u32>>());
    assert!(matches!(row.column_data[0], physis_ColumnData::String(ref b) if b == &vec![b's', 0]));
    assert!(matches!(row.column_data[1], physis_ColumnData::Bool(true)));
    assert!(matches!(row.column_data[2], physis_ColumnData::Int8(-8)));
    assert!(matches!(row.column_data[3], physis_ColumnData::UInt8(8)));
    assert!(matches!(row.column_data[4], physis_ColumnData::Int16(-16)));
    assert!(matches!(row.column_data[5], physis_ColumnData::UInt16(16)));
    assert!(matches!(row.column_data[6], physis_ColumnData::Int32(-32)));
    assert!(matches!(row.column_data[7], physis_ColumnData::UInt32(32)));
    match row.column_data[8] {
        physis_ColumnData::Float32(bits) => assert_eq!(f32::from_bits(bits), 1.5f32),
        _ => panic!("wrong arm"),
    }
    assert!(matches!(row.column_data[9], physis_ColumnData::Int64(-64)));
    assert!(matches!(row.column_data[10], physis_ColumnData::UInt64(64)));
}

#[test]
fn cell_with_nul_does_not_convert() {
    assert!(to_c_field(&Field::String(vec![0])).is_none());
    assert!(to_c_row(0, &vec![Field::Bool(false), Field::String(vec![1, 0, 2])]).is_none());
}

#[test]
fn release_count_matches_native_drop() {
    // rows: one single row of 3 cells with 2 strings, one with 2 subrows of 3 cells and no strings
    let rows = vec![
        ExcelRow {
            row_id: 1,
            kind: ExcelRowKind::SingleRow(vec![
                Field::String(b"a".to_vec()),
                Field::String(b"b".to_vec()),
                Field::Int64(3),
            ]),
        },
        ExcelRow {
            row_id: 2,
            kind: ExcelRowKind::SubRows(vec![
                ExcelSubrow { subrow_id: 0, columns: vec![Field::Int8(1), Field::Int8(2), Field::Int8(3)] },
                ExcelSubrow { subrow_id: 1, columns: vec![Field::Int8(4), Field::Int8(5), Field::Int8(6)] },
            ]),
        },
    ];
    let native = (1 + 3 + 2) + (1 + 6);
    let exd = flatten_excel_sheet(3, &rows);
    assert_eq!(physis_gamedata_free_sheet(exd), native);
}

#[test]
fn empty_row_record_frees_as_no_op() {
    let exd = physis_EXD::default();
    let empty = physis_ExcelRows { row_id: 0, row_data: Vec::new(), row_count: 0 };
    assert_eq!(physis_exd_free_rows(&exd, empty), 0);
    // a row without subrows exports as an empty record, and the page releases nothing for it
    let page = flatten_excel_sheet(2, &vec![ExcelRow { row_id: 5, kind: ExcelRowKind::SubRows(vec![]) }]);
    assert_eq!(page.rows[0].row_count, 0);
    assert_eq!(physis_gamedata_free_sheet(page), 0);
}

#[test]
fn sheet_counts_are_checked() {
    assert!(check_sheet_fits(&vec![text_row(0, "a", 1)]));
    assert!(check_sheet_fits(&Vec::new()));
}
