//! Pixel formats, the layout snapshot of an image, and surface configuration.
use vstd::prelude::*;

verus! {

/// A pixel format that a surface can hold.
#[derive(Clone, Copy, Debug, PartialEq, Eq, Structural)]
pub enum Format {
    /// 32 bits per pixel: alpha, red, green and blue, 8 bits each.
    Argb8888,
}

/// Bytes that one pixel of `format` takes.
pub open spec fn bytes_per_pixel(format: Format) -> nat {
    match format {
        Format::Argb8888 => 4,
    }
}

impl Format {
    /// Bytes that one pixel of this format takes.
    pub fn bytes_per_pixel(&self) -> (r: usize)
        ensures
            r == bytes_per_pixel(*self),
            r > 0,
    {
        match self {
            Format::Argb8888 => 4,
        }
    }
}

/// The layout of the image: its size in pixels, the length of one row in
/// bytes, and its pixel format.
#[derive(Clone, Copy, Debug, PartialEq, Eq)]
pub struct ImageInfo {
    /// Width and height in pixels.
    pub extent: [u32; 2],
    /// Bytes from the start of one row to the start of the next.
    pub stride: usize,
    pub format: Format,
}

impl Default for ImageInfo {
    /// An empty image: no pixels, no rows.
    fn default() -> (r: ImageInfo)
        ensures
            r.extent[0] == 0,
            r.extent[1] == 0,
            r.stride == 0,
            r.format == Format::Argb8888,
    {
        ImageInfo { extent: [0u32, 0u32], stride: 0, format: Format::Argb8888 }
    }
}

/// What a caller chooses when making a surface.
#[derive(Clone, Copy, Debug, PartialEq, Eq)]
pub struct Config {
    /// Byte alignment of the pixel buffer; a power of two.
    pub align: usize,
    /// Byte alignment of each row's length; a power of two.
    pub scanline_align: usize,
}

} // verus!
