use physis_capi::dic::{physis_Dictionary, physis_dictionary_free, to_c_dictionary};

#[test]
fn words_become_c_strings_in_order() {
    let d = to_c_dictionary(&vec![b"alpha".to_vec(), b"".to_vec(), b"beta".to_vec()]);
    assert_eq!(d.num_words, 3);
    assert_eq!(d.words, vec![b"alpha\0".to_vec(), vec![0], b"beta\0".to_vec()]);
    assert_eq!(physis_dictionary_free(d), 6);
}

#[test]
fn word_with_nul_gives_empty_dictionary() {
    let d = to_c_dictionary(&vec![b"ok".to_vec(), b"n\0o".to_vec()]);
    assert_eq!(d.num_words, 0);
    assert!(d.words.is_empty());
    assert_eq!(physis_dictionary_free(d), 0);
}

#[test]
fn dictionary_sentinel_is_empty() {
    let d = physis_Dictionary::default();
    assert_eq!(d.num_words, 0);
    assert_eq!(physis_dictionary_free(d), 0);
}
