use physis_capi::index::{combined_hash, physis_generate_partial_hash, physis_IndexEntries, to_c_index_entries, IndexHash};

#[test]
fn split_hashes_fill_both_arrays() {
    let hashes = vec![
        IndexHash::SplitPath { name: 1, path: 100 },
        IndexHash::FullPath(7),
        IndexHash::SplitPath { name: 2, path: 200 },
    ];
    let e = to_c_index_entries(&hashes);
    assert_eq!(e.dir_entries, vec![100, 0, 200]);
    assert_eq!(e.filename_entries, vec![1, 7, 2]);
    assert_eq!(e.num_entries, 3);
}

#[test]
fn no_entries_gives_empty_arrays() {
    let e = to_c_index_entries(&Vec::new());
    assert_eq!(e.num_entries, 0);
    assert!(e.dir_entries.is_empty() && e.filename_entries.is_empty());
    assert_eq!(physis_IndexEntries::default().num_entries, 0);
}

#[test]
fn combined_hash_puts_directory_high() {
    assert_eq!(combined_hash(IndexHash::SplitPath { name: 0x1234_5678, path: 0x9abc_def0 }), 0x9abc_def0_1234_5678);
    assert_eq!(combined_hash(IndexHash::FullPath(0xdead_beef)), 0xdead_beef);
}

#[test]
fn partial_hash_is_the_index_checksum() {
    let name = "Exd/Root.Exl";
    let h = physis_generate_partial_hash(name);
    assert_eq!(h, physis::sqpack::SqPackIndex::calculate_partial_hash(name));
    assert_eq!(h, physis_generate_partial_hash("exd/root.exl"));
    assert_ne!(h, physis_generate_partial_hash("exd/other.exl"));
    assert_ne!(h, 0);
}

#[test]
fn index_entries_free_every_hash() {
    let e = to_c_index_entries(&vec![IndexHash::SplitPath { name: 1, path: 2 }, IndexHash::FullPath(3)]);
    assert_eq!(physis_capi::index::physis_index_entries_free(e), 4);
    assert_eq!(physis_capi::index::physis_index_entries_free(physis_IndexEntries::default()), 0);
}

#[test]
fn full_path_index_counts_every_entry() {
    let e = to_c_index_entries(&vec![IndexHash::FullPath(9)]);
    assert_eq!(e.num_entries, 1);
    assert_eq!(e.dir_entries, vec![0]);
    assert_eq!(e.filename_entries, vec![9]);
}
