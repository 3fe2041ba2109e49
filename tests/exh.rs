use physis_capi::buffer::physis_Buffer;
use physis_capi::common::GamePlatform;
use physis_capi::exh::{physis_parse_excel_sheet_header, to_c_exh, SheetHeader};

#[test]
fn header_export_keeps_pages_columns_languages() {
    let h = SheetHeader {
        row_count: 120,
        pages: vec![(0, 100), (100, 20)],
        columns: vec![(0, 0), (7, 4)],
        languages: vec![0, 1],
    };
    let e = to_c_exh(&h);
    assert_eq!(e.row_count, 120);
    assert_eq!(e.page_count, 2);
    assert_eq!((e.pages[1].start_id, e.pages[1].row_count), (100, 20));
    assert_eq!(e.column_count, 2);
    assert_eq!((e.column_definitions[1].data_type, e.column_definitions[1].offset), (7, 4));
    assert_eq!(e.language_count, 2);
    assert_eq!(e.languages, vec![0, 1]);
}

#[test]
fn garbage_header_gives_null() {
    let buf = physis_Buffer::from_vec(vec![0u8; 4]);
    assert!(physis_parse_excel_sheet_header(GamePlatform::Win32, &buf).is_none());
}

#[test]
fn sheet_header_free_counts() {
    let h = SheetHeader { row_count: 1, pages: vec![(0, 1)], columns: vec![(1, 0), (2, 1), (3, 2)], languages: vec![1] };
    assert_eq!(physis_capi::exh::physis_sheet_header_free(to_c_exh(&h)), 5);
}
