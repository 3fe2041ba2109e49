use physis_capi::buffer::physis_Buffer;
use physis_capi::common::GamePlatform;
use physis_capi::hwc::{physis_HWC, physis_hwc_parse, HWC_RGBA_LEN};
use physis_capi::tex::{physis_Texture, to_c_texture};

#[test]
fn cursor_takes_first_pixmap_bytes() {
    let data: Vec<u8> = (0..HWC_RGBA_LEN + 10).map(|i| (i % 251) as u8).collect();
    let buf = physis_Buffer::from_vec(data.clone());
    let h = physis_hwc_parse(GamePlatform::Win32, &buf);
    assert_eq!(h.rgba.len(), HWC_RGBA_LEN);
    assert_eq!(h.rgba, data[..HWC_RGBA_LEN].to_vec());
}

#[test]
fn cursor_size_is_64_by_64_rgba() {
    assert_eq!(HWC_RGBA_LEN, 16384);
}

#[test]
fn short_cursor_gives_sentinel() {
    let buf = physis_Buffer::from_vec(vec![1u8; HWC_RGBA_LEN - 1]);
    let h = physis_hwc_parse(GamePlatform::PS3, &buf);
    assert!(h.rgba.is_empty());
    assert!(physis_HWC::default().rgba.is_empty());
}

#[test]
fn texture_export_keeps_size_and_pixels() {
    let t = to_c_texture(2, 3, vec![9u8; 24]);
    assert_eq!(t.width, 2);
    assert_eq!(t.height, 3);
    assert_eq!(t.rgba_size, 24);
    assert_eq!(t.rgba, vec![9u8; 24]);
}

#[test]
fn texture_sentinel_is_empty() {
    let t = physis_Texture::empty();
    assert_eq!((t.width, t.height, t.rgba_size), (0, 0, 0));
    assert!(t.rgba.is_empty());
}

#[test]
fn pixel_buffers_free_their_bytes() {
    assert_eq!(physis_capi::tex::physis_texture_free(to_c_texture(1, 1, vec![0u8; 4])), 4);
    assert_eq!(physis_capi::tex::physis_texture_free(physis_Texture::empty()), 0);
    assert_eq!(physis_capi::hwc::physis_hwc_free(physis_HWC::default()), 0);
}
