use physis_capi::buffer::{ffi_free_string, ffi_from_c_string, ffi_to_c_string, is_utf8, physis_free_buffer, physis_Buffer};

#[test]
fn text_gets_one_terminator() {
    let c = ffi_to_c_string(&b"foo".to_vec());
    assert_eq!(c, Some(vec![b'f', b'o', b'o', 0]));
}

#[test]
fn empty_text_is_a_lone_terminator() {
    assert_eq!(ffi_to_c_string(&Vec::new()), Some(vec![0]));
}

#[test]
fn interior_nul_gives_null_string() {
    assert_eq!(ffi_to_c_string(&b"fo\0o".to_vec()), None);
}

#[test]
fn c_string_round_trips() {
    let c = ffi_to_c_string(&b"bone_root".to_vec());
    assert_eq!(ffi_from_c_string(&c), Some(b"bone_root".to_vec()));
    assert_eq!(ffi_from_c_string(&None), None);
}

#[test]
fn freeing_strings_counts_one_or_none() {
    assert_eq!(ffi_free_string(Some(vec![b'a', 0])), 1);
    assert_eq!(ffi_free_string(None), 0);
}

#[test]
fn buffer_count_is_authoritative() {
    let mut v = Vec::with_capacity(64);
    v.extend_from_slice(&[1u8, 2, 3]);
    let b = physis_Buffer::from_vec(v);
    assert_eq!(b.size, 3);
    assert_eq!(b.as_slice(), &[1u8, 2, 3]);
    assert_eq!(physis_free_buffer(b), 3);
}

#[test]
fn empty_buffer_frees_as_no_op() {
    let b = physis_Buffer::empty();
    assert_eq!(b.size, 0);
    assert_eq!(physis_free_buffer(b), 0);
}

#[test]
fn invalid_utf8_reads_as_absent() {
    assert_eq!(ffi_from_c_string(&Some(vec![0xFF, 0])), None);
    assert_eq!(ffi_from_c_string(&Some(vec![0xC3, 0x28, 0])), None);
    assert_eq!(ffi_from_c_string(&Some("héllo".as_bytes().iter().copied().chain([0]).collect())), Some("héllo".as_bytes().to_vec()));
}

#[test]
fn utf8_check_agrees_with_std_on_short_inputs() {
    for a in 0..=255u8 {
        assert_eq!(is_utf8(&[a]), std::str::from_utf8(&[a]).is_ok(), "{a:#x}");
        for b in 0..=255u8 {
            assert_eq!(is_utf8(&[a, b]), std::str::from_utf8(&[a, b]).is_ok(), "{a:#x} {b:#x}");
        }
    }
}

#[test]
fn utf8_check_agrees_with_std_on_long_sequences() {
    let seconds = [0x7F, 0x80, 0x8F, 0x90, 0x9F, 0xA0, 0xBF, 0xC0];
    for a in 0xE0..=0xFFu8 {
        for &b in &seconds {
            for &c in &[0x41u8, 0x80, 0xBF, 0xC0] {
                let three = [a, b, c];
                assert_eq!(is_utf8(&three), std::str::from_utf8(&three).is_ok(), "{three:x?}");
                for &d in &[0x41u8, 0x80, 0xBF, 0xC0] {
                    let four = [a, b, c, d];
                    assert_eq!(is_utf8(&four), std::str::from_utf8(&four).is_ok(), "{four:x?}");
                }
            }
        }
    }
    assert!(is_utf8("日本語 🎮".as_bytes()));
    assert!(!is_utf8(&[0xED, 0xA0, 0x80]));
    assert!(!is_utf8(&[0xF4, 0x90, 0x80, 0x80]));
}
