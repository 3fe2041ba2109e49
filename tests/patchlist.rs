use physis_capi::patchlist::{physis_PatchList, physis_patchlist_free, to_c_patch, to_c_patchlist, PatchEntry, PatchList};

fn patch(url: &str, hashes: &[&str]) -> PatchEntry {
    PatchEntry {
        url: url.as_bytes().to_vec(),
        version: b"2023.09.15.0000.0000".to_vec(),
        hash_block_size: 50000000,
        length: 1234,
        size_on_disk: 5678,
        hashes: hashes.iter().map(|h| h.as_bytes().to_vec()).collect(),
    }
}

#[test]
fn patches_export_with_strings_and_hashes() {
    let list = PatchList { patch_length: 99, patches: vec![patch("http://a/p1", &["h1", "h2"]), patch("http://a/p2", &[])] };
    let e = to_c_patchlist(&list);
    assert_eq!(e.patch_length, 99);
    assert_eq!(e.num_entries, 2);
    assert_eq!(e.entries[0].url, b"http://a/p1\0".to_vec());
    assert_eq!(e.entries[0].version, b"2023.09.15.0000.0000\0".to_vec());
    assert_eq!(e.entries[0].hash_count, 2);
    assert_eq!(e.entries[0].hashes, vec![b"h1\0".to_vec(), b"h2\0".to_vec()]);
    assert_eq!((e.entries[0].hash_block_size, e.entries[0].length, e.entries[0].size_on_disk), (50000000, 1234, 5678));
    assert_eq!(e.entries[1].hash_count, 0);
    // (3 + 2 * 2) + (3 + 0)
    assert_eq!(physis_patchlist_free(e), 10);
}

#[test]
fn hash_with_nul_gives_empty_list() {
    let list = PatchList { patch_length: 5, patches: vec![patch("u", &["ok", "b\0d"])] };
    let e = to_c_patchlist(&list);
    assert_eq!((e.patch_length, e.num_entries), (0, 0));
    assert!(e.entries.is_empty());
    assert!(to_c_patch(&patch("u\0", &[])).is_none());
    assert_eq!(physis_patchlist_free(physis_PatchList::default()), 0);
}
