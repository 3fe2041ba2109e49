//! Textures: decoded RGBA pixels handed over with their dimensions.

use vstd::prelude::*;

verus! {

/// An exported texture: its size in pixels and its RGBA bytes, counted.
pub struct physis_Texture {
    pub width: u32,
    pub height: u32,
    pub rgba_size: u32,
    pub rgba: Vec<u8>,
}

impl physis_Texture {
    /// The sentinel texture: no size, no pixels.
    pub open spec fn is_empty(&self) -> bool {
        self.width == 0 && self.height == 0 && self.rgba_size == 0 && self.rgba@.len() == 0
    }

    /// The sentinel texture.
    pub fn empty() -> (r: physis_Texture)
        ensures
            r.is_empty(),
    {
        physis_Texture { width: 0, height: 0, rgba_size: 0, rgba: Vec::new() }
    }
}

/// Exports decoded pixels with their dimensions.
pub fn to_c_texture(width: u16, height: u16, rgba: Vec<u8>) -> (r: physis_Texture)
    requires
        rgba@.len() <= u32::MAX,
    ensures
        r.width == width as u32,
        r.height == height as u32,
        r.rgba_size as int == rgba@.len(),
        r.rgba@ == rgba@,
{
    let size = rgba.len() as u32;
    physis_Texture { width: width as u32, height: height as u32, rgba_size: size, rgba }
}

/// Releases an exported texture, returning how many bytes were destroyed.
/// The sentinel releases nothing.
pub fn physis_texture_free(texture: physis_Texture) -> (released: usize)
    ensures
        released == texture.rgba@.len(),
{
    texture.rgba.len()
}

} // verus!
