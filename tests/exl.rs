use physis_capi::buffer::physis_Buffer;
use physis_capi::common::GamePlatform;
use physis_capi::exl::{physis_EXL, physis_excel_list_free, physis_gamedata_read_excel_list, to_c_excel_list};

#[test]
fn excel_list_file_is_read_and_exported() {
    let text = b"EXLT,2\nAchievement,209\n#Hidden,1\nAction,4\nbroken line\n".to_vec();
    let buf = physis_Buffer::from_vec(text);
    let e = physis_gamedata_read_excel_list(GamePlatform::Win32, &buf);
    assert_eq!(e.version, 2);
    assert_eq!(e.entry_count, 2);
    assert_eq!(e.entry_keys, vec![b"Achievement\0".to_vec(), b"Action\0".to_vec()]);
    assert_eq!(e.entry_values, vec![209, 4]);
    // two names with their strings, and two ids
    assert_eq!(physis_excel_list_free(e), 6);
}

#[test]
fn empty_excel_list_file() {
    let e = physis_gamedata_read_excel_list(GamePlatform::Win32, &physis_Buffer::empty());
    assert_eq!((e.version, e.entry_count), (0, 0));
    assert!(e.entry_keys.is_empty() && e.entry_values.is_empty());
}

#[test]
fn excel_list_name_with_nul_gives_sentinel() {
    let e = to_c_excel_list(3, &vec![(b"a".to_vec(), 1), (b"b\0".to_vec(), 2)]);
    assert_eq!((e.version, e.entry_count), (0, 0));
    assert!(e.entry_keys.is_empty());
    assert_eq!(physis_excel_list_free(physis_EXL::empty()), 0);
}
