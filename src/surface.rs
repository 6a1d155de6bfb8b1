//! A surface: one pixel buffer, its layout, and the lock that guards it.
use vstd::prelude::*;
use crate::align::{is_pow2, lemma_round_up, round_up, Align};
use crate::buffer::{overwritten, resized, Buffer};
use crate::image::{bytes_per_pixel, Config, Format, ImageInfo};

verus! {

/// Largest value of the native blit call's signed 32-bit parameters.
pub const SIGNED_CEILING: u32 = 0x7fff_ffff;

/// Why an operation on a surface did not take place.
#[derive(Clone, Copy, Debug, PartialEq, Eq, Structural)]
pub enum SurfaceError {
    /// A row length, a pixel count or the buffer size does not fit.
    Overflow,
    /// The image is locked for writing.
    Locked,
}

/// What the native blit call is given to copy the image onto the window:
/// the whole image, placed at the window's top-left corner.
#[derive(Clone, Copy, Debug, PartialEq, Eq, Structural)]
pub struct BlitParams {
    /// Width of the copied area, in pixels, on the window and in the image.
    pub width: i32,
    /// Height of the copied area, in pixels, on the window and in the image.
    pub height: i32,
    /// Length of one stored row, in pixels (the stride in pixels).
    pub row_pixels: i32,
    /// Height of the stored bitmap, negated: rows lie top to bottom in memory.
    pub bitmap_height: i32,
    /// Bits that one pixel takes.
    pub bits_per_pixel: u16,
}

/// The state of a surface as its contracts see it.
pub struct SurfaceView {
    /// The native window the surface presents to.
    pub hwnd: usize,
    /// The current layout.
    pub info: ImageInfo,
    /// The bytes of the buffer.
    pub bytes: Seq<u8>,
    /// Whether the image is locked for writing.
    pub locked: bool,
    /// Byte alignment of the buffer.
    pub buffer_align: nat,
    /// Byte alignment of each row's length.
    pub scanline_align: nat,
}

impl SurfaceView {
    /// The layout fits the buffer and the native blit call's parameters.
    pub open spec fn wf(self) -> bool {
        let bpp = bytes_per_pixel(self.info.format);
        &&& is_pow2(self.buffer_align)
        &&& is_pow2(self.scanline_align)
        &&& self.info.stride as nat % self.scanline_align == 0
        &&& self.info.stride >= self.info.extent[0] as nat * bpp
        &&& self.info.stride as nat / bpp <= SIGNED_CEILING
        &&& self.info.extent[1] <= SIGNED_CEILING
        &&& self.bytes.len() >= self.info.stride as nat * self.info.extent[1] as nat
    }
}

/// Row length in bytes of an image `extent` wide in `format`, for rows
/// aligned to `scanline_align`.
pub open spec fn stride_for(extent: [u32; 2], format: Format, scanline_align: nat) -> nat {
    round_up(extent[0] as nat * bytes_per_pixel(format), scanline_align)
}

/// What resizing `v` to `extent` and `format` reports.
pub open spec fn update_outcome(v: SurfaceView, extent: [u32; 2], format: Format) -> Result<
    (),
    SurfaceError,
> {
    let stride = stride_for(extent, format, v.scanline_align);
    if v.locked {
        Err(SurfaceError::Locked)
    } else if stride > usize::MAX || stride / bytes_per_pixel(format) > SIGNED_CEILING
        || stride * extent[1] as nat > usize::MAX {
        Err(SurfaceError::Overflow)
    } else {
        Ok(())
    }
}

/// The surface after resizing `v` to `extent` and `format`: unchanged where
/// that fails.
pub open spec fn updated(v: SurfaceView, extent: [u32; 2], format: Format) -> SurfaceView {
    let stride = stride_for(extent, format, v.scanline_align);
    if update_outcome(v, extent, format) is Ok {
        SurfaceView {
            info: ImageInfo { extent, stride: stride as usize, format },
            bytes: resized(v.bytes, stride * extent[1] as nat),
            ..v
        }
    } else {
        v
    }
}

/// What locking `v` reports.
pub open spec fn lock_outcome(v: SurfaceView) -> Result<(), SurfaceError> {
    if v.locked {
        Err(SurfaceError::Locked)
    } else {
        Ok(())
    }
}

/// The surface after locking `v`.
pub open spec fn after_lock(v: SurfaceView) -> SurfaceView {
    SurfaceView { locked: true, ..v }
}

/// The surface after releasing the lock of `v`.
pub open spec fn after_unlock(v: SurfaceView) -> SurfaceView {
    SurfaceView { locked: false, ..v }
}

/// The surface after writing `src` into the image of `v` from byte `offset` on.
pub open spec fn after_write(v: SurfaceView, offset: int, src: Seq<u8>) -> SurfaceView {
    SurfaceView { bytes: overwritten(v.bytes, offset, src), ..v }
}

/// The blit that presents an image of layout `info`.
pub open spec fn blit_for(info: ImageInfo) -> BlitParams {
    BlitParams {
        width: info.extent[0] as i32,
        height: info.extent[1] as i32,
        row_pixels: (info.stride as nat / bytes_per_pixel(info.format)) as i32,
        bitmap_height: -(info.extent[1] as int) as i32,
        bits_per_pixel: (8 * bytes_per_pixel(info.format)) as u16,
    }
}

/// What presenting `v` reports.
pub open spec fn present_outcome(v: SurfaceView) -> Result<BlitParams, SurfaceError> {
    if v.locked {
        Err(SurfaceError::Locked)
    } else {
        Ok(blit_for(v.info))
    }
}

/// A surface bound to one native window: it owns the pixel buffer, the
/// current layout and the lock that guards writing.
#[derive(Debug)]
pub struct SurfaceImpl {
    hwnd: usize,
    image: Buffer,
    image_info: ImageInfo,
    scanline_align: Align,
    locked: bool,
}

impl View for SurfaceImpl {
    type V = SurfaceView;

    closed spec fn view(&self) -> SurfaceView {
        SurfaceView {
            hwnd: self.hwnd,
            info: self.image_info,
            bytes: self.image@,
            locked: self.locked,
            buffer_align: self.image.spec_align(),
            scanline_align: self.scanline_align.spec_value(),
        }
    }
}

impl SurfaceImpl {
    /// The surface is in a state its operations can work from.
    pub closed spec fn wf(&self) -> bool {
        self@.wf() && self.image.wf()
    }

    /// A surface for the native window `hwnd`, with a one-byte placeholder
    /// buffer, an empty layout, and the alignments of `config`.
    pub fn new(hwnd: usize, config: &Config) -> (r: SurfaceImpl)
        requires
            is_pow2(config.align as nat),
            is_pow2(config.scanline_align as nat),
        ensures
            r.wf(),
            r@.hwnd == hwnd,
            r@.info.extent[0] == 0 && r@.info.extent[1] == 0,
            r@.info.stride == 0,
            r@.info.format == Format::Argb8888,
            r@.bytes == seq![0u8],
            !r@.locked,
            r@.buffer_align == config.align,
            r@.scanline_align == config.scanline_align,
    {
        let image = Buffer::from_size_align(1, config.align).unwrap();
        let scanline_align = Align::new(config.scanline_align).unwrap();
        let r = SurfaceImpl {
            hwnd,
            image,
            image_info: ImageInfo::default(),
            scanline_align,
            locked: false,
        };
        assert(r@.bytes =~= seq![0u8]);
        r
    }

    /// Resizes the image to `extent` pixels in `format`. The row length is
    /// `extent[0]` pixels rounded up to the scanline alignment; the buffer is
    /// brought to that row length times `extent[1]` bytes. Fails, and changes
    /// nothing, while the image is locked, or where the row length, its pixel
    /// count or the buffer size does not fit.
    pub fn update_surface(&mut self, extent: [u32; 2], format: Format) -> (r: Result<(), SurfaceError>)
        requires
            old(self).wf(),
            extent[0] > 0,
            extent[1] > 0,
            extent[1] <= SIGNED_CEILING,
        ensures
            final(self).wf(),
            r == update_outcome(old(self)@, extent, format),
            final(self)@ == updated(old(self)@, extent, format),
    {
        if self.locked {
            return Err(SurfaceError::Locked);
        }
        let bpp = format.bytes_per_pixel();
        let align = self.scanline_align.value();
        let width = extent[0] as usize;
        let height = extent[1] as usize;
        proof {
            lemma_round_up(width as nat * bpp as nat, align as nat, 0);
        }
        let row = match width.checked_mul(bpp) {
            Some(x) => x,
            None => {
                return Err(SurfaceError::Overflow);
            },
        };
        let stride = match self.scanline_align.align_up(row) {
            Some(x) => x,
            None => {
                return Err(SurfaceError::Overflow);
            },
        };
        // The row length in pixels goes to the native blit call, whose
        // parameter is a signed 32-bit integer.
        if stride / bpp > SIGNED_CEILING as usize {
            return Err(SurfaceError::Overflow);
        }
        let size = match stride.checked_mul(height) {
            Some(x) => x,
            None => {
                return Err(SurfaceError::Overflow);
            },
        };
        self.image.resize(size);
        self.image_info = ImageInfo { extent, stride, format };
        Ok(())
    }

    /// The formats this surface can present.
    pub fn supported_formats(&self) -> (r: Vec<Format>)
        ensures
            r@ == seq![Format::Argb8888],
    {
        let mut r: Vec<Format> = Vec::new();
        r.push(Format::Argb8888);
        r
    }

    /// The layout set by the last successful `update_surface`.
    pub fn image_info(&self) -> (r: ImageInfo)
        ensures
            r == self@.info,
    {
        self.image_info
    }

    /// The number of images: one, as there is no swap chain.
    pub fn num_images(&self) -> (r: usize)
        ensures
            r == 1,
    {
        1
    }

    /// Pixels written stay until they are written again.
    pub fn does_preserve_image(&self) -> (r: bool)
        ensures
            r,
    {
        true
    }

    /// The index of the image to draw next: always 0, at once.
    pub fn poll_next_image(&self) -> (r: Option<usize>)
        ensures
            r == Some(0usize),
    {
        Some(0)
    }

    /// Locks image `i` for writing. Fails, and changes nothing, where it is
    /// locked already.
    pub fn lock_image(&mut self, i: usize) -> (r: Result<(), SurfaceError>)
        requires
            old(self).wf(),
            i == 0,
        ensures
            final(self).wf(),
            r == lock_outcome(old(self)@),
            final(self)@ == (if r is Ok { after_lock(old(self)@) } else { old(self)@ }),
    {
        if self.locked {
            Err(SurfaceError::Locked)
        } else {
            self.locked = true;
            Ok(())
        }
    }

    /// Releases the lock, so that the image can be presented or locked again.
    pub fn unlock_image(&mut self)
        requires
            old(self).wf(),
        ensures
            final(self).wf(),
            final(self)@ == after_unlock(old(self)@),
    {
        self.locked = false;
    }

    /// Copies `src` into the locked image from byte `offset` on.
    pub fn write_image(&mut self, offset: usize, src: &[u8])
        requires
            old(self).wf(),
            old(self)@.locked,
            offset + src@.len() <= old(self)@.bytes.len(),
        ensures
            final(self).wf(),
            final(self)@ == after_write(old(self)@, offset as int, src@),
    {
        self.image.write(offset, src);
    }

    /// The bytes of the image. The row `y` starts at `y * stride`.
    pub fn image_bytes(&self) -> (r: &[u8])
        ensures
            r@ == self@.bytes,
    {
        self.image.as_slice()
    }

    /// The native window this surface presents to.
    pub fn hwnd(&self) -> (r: usize)
        ensures
            r == self@.hwnd,
    {
        self.hwnd
    }

    /// The blit that copies image `i` onto the window: the whole image, with
    /// rows stored top to bottom (a negative bitmap height). Fails while the
    /// image is locked.
    pub fn present_image(&self, i: usize) -> (r: Result<BlitParams, SurfaceError>)
        requires
            self.wf(),
            i == 0,
        ensures
            r == present_outcome(self@),
    {
        if self.locked {
            return Err(SurfaceError::Locked);
        }
        let info = self.image_info;
        let bpp = info.format.bytes_per_pixel();
        assert(info.extent[0] as nat <= info.stride as nat / bpp as nat) by (nonlinear_arith)
            requires
                info.stride as nat >= info.extent[0] as nat * bpp as nat,
                bpp > 0,
        ;
        let row_pixels = (info.stride / bpp) as i32;
        let height = info.extent[1] as i32;
        Ok(
            BlitParams {
                width: info.extent[0] as i32,
                height,
                row_pixels,
                bitmap_height: -height,
                bits_per_pixel: 8 * bpp as u16,
            },
        )
    }
}

} // verus!
