//! Hardware cursors: a fixed-size RGBA pixmap handed over as bytes.

use vstd::prelude::*;
use crate::buffer::physis_Buffer;
use crate::common::{GamePlatform, to_physis_platform};

verus! {

/// The number of RGBA bytes of every cursor: 64 by 64 pixels, 4 bytes each.
pub const HWC_RGBA_LEN: usize = 64 * 64 * 4;

/// An exported cursor: its RGBA bytes, or none for the sentinel.
pub struct physis_HWC {
    pub rgba: Vec<u8>,
}

impl physis_HWC {
    /// The sentinel cursor: no pixels.
    pub fn empty() -> (r: physis_HWC)
        ensures
            r.rgba@.len() == 0,
    {
        physis_HWC { rgba: Vec::new() }
    }
}

impl Default for physis_HWC {
    fn default() -> (r: physis_HWC)
        ensures
            r.rgba@.len() == 0,
    {
        physis_HWC::empty()
    }
}

/// Relies on physis::hwc::Hwc::from_existing: it reads the first
/// 64 * 64 * 4 bytes as the pixels, and fails when fewer are given.
#[verifier::external_body]
fn read_hwc(platform: GamePlatform, data: &[u8]) -> (r: Option<Vec<u8>>)
    ensures
        match r {
            None => data@.len() < HWC_RGBA_LEN,
            Some(px) => data@.len() >= HWC_RGBA_LEN && px@ == data@.subrange(0, HWC_RGBA_LEN as int),
        },
{
    <physis::hwc::Hwc as physis::ReadableFile>::from_existing(to_physis_platform(platform), data).map(|h| h.rgba)
}

/// Decodes a cursor file: its pixels are its first 64 * 64 * 4 bytes. A
/// shorter file gives the sentinel.
pub fn physis_hwc_parse(platform: GamePlatform, buffer: &physis_Buffer) -> (r: physis_HWC)
    requires
        buffer.wf(),
    ensures
        buffer.data@.len() >= HWC_RGBA_LEN ==> r.rgba@ == buffer.data@.subrange(0, HWC_RGBA_LEN as int),
        buffer.data@.len() < HWC_RGBA_LEN ==> r.rgba@.len() == 0,
{
    match read_hwc(platform, buffer.as_slice()) {
        Some(rgba) => physis_HWC { rgba },
        None => physis_HWC::empty(),
    }
}

/// Releases an exported cursor, returning how many bytes were destroyed.
/// The sentinel releases nothing.
pub fn physis_hwc_free(hwc: physis_HWC) -> (released: usize)
    ensures
        released == hwc.rgba@.len(),
{
    hwc.rgba.len()
}

} // verus!
