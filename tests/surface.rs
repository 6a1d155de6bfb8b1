use swsurface::{Align, BlitParams, Buffer, Config, Format, ImageInfo, SurfaceError, SurfaceImpl};

fn surface(scanline_align: usize) -> SurfaceImpl {
    SurfaceImpl::new(42, &Config { align: 16, scanline_align })
}

#[test]
fn align_new_accepts_powers_of_two_only() {
    assert!(Align::new(0).is_none());
    assert!(Align::new(3).is_none());
    assert!(Align::new(12).is_none());
    assert_eq!(Align::new(1).unwrap().value(), 1);
    assert_eq!(Align::new(64).unwrap().value(), 64);
    assert_eq!(Align::new(1usize << 63).unwrap().value(), 1usize << 63);
}

#[test]
fn align_up_rounds_to_the_next_multiple() {
    let a = Align::new(16).unwrap();
    assert_eq!(a.align_up(0), Some(0));
    assert_eq!(a.align_up(1), Some(16));
    assert_eq!(a.align_up(16), Some(16));
    assert_eq!(a.align_up(17), Some(32));
    assert_eq!(Align::new(1).unwrap().align_up(3201), Some(3201));
}

#[test]
fn align_up_overflow_gives_none() {
    let a = Align::new(16).unwrap();
    assert_eq!(a.align_up(usize::MAX), None);
    assert_eq!(a.align_up(usize::MAX - 15), Some(usize::MAX - 15));
    assert_eq!(a.align_up(usize::MAX - 14), None);
}

#[test]
fn buffer_make_resize_write() {
    assert!(Buffer::from_size_align(4, 3).is_none());
    let mut b = Buffer::from_size_align(4, 8).unwrap();
    assert_eq!(b.as_slice(), &[0u8, 0, 0, 0][..]);
    b.write(1, &[7, 8]);
    assert_eq!(b.as_slice(), &[0u8, 7, 8, 0][..]);
    b.resize(6);
    assert_eq!(b.as_slice(), &[0u8, 7, 8, 0, 0, 0][..]);
    b.resize(2);
    assert_eq!(b.as_slice(), &[0u8, 7][..]);
    assert_eq!(b.len(), 2);
}

#[test]
fn new_surface_is_empty_and_unlocked() {
    let s = surface(4);
    assert_eq!(s.image_info(), ImageInfo::default());
    assert_eq!(s.image_info().extent, [0, 0]);
    assert_eq!(s.image_bytes().len(), 1);
    assert_eq!(s.hwnd(), 42);
    let blit = s.present_image(0).unwrap();
    assert_eq!(blit.width, 0);
    assert_eq!(blit.bitmap_height, 0);
}

#[test]
fn update_800_by_600_unaligned() {
    let mut s = surface(1);
    assert_eq!(s.update_surface([800, 600], Format::Argb8888), Ok(()));
    let info = s.image_info();
    assert_eq!(info.extent, [800, 600]);
    assert_eq!(info.stride, 3200);
    assert_eq!(info.format, Format::Argb8888);
    assert_eq!(s.image_bytes().len(), 1_920_000);
}

#[test]
fn update_stride_is_aligned_and_holds_a_row() {
    for &(align, width) in &[(1usize, 1u32), (8, 3), (64, 17), (256, 1000), (4096, 1)] {
        let mut s = surface(align);
        assert_eq!(s.update_surface([width, 5], Format::Argb8888), Ok(()));
        let info = s.image_info();
        assert_eq!(info.stride % align, 0);
        assert!(info.stride >= width as usize * 4);
        assert!(info.stride < width as usize * 4 + align);
        assert_eq!(s.image_bytes().len(), info.stride * 5);
    }
    let mut s = surface(64);
    assert_eq!(s.update_surface([17, 2], Format::Argb8888), Ok(()));
    assert_eq!(s.image_info().stride, 128);
}

#[test]
fn update_width_max_fails_and_keeps_layout() {
    let mut s = surface(1);
    assert_eq!(s.update_surface([u32::MAX, 1], Format::Argb8888), Err(SurfaceError::Overflow));
    assert_eq!(s.image_info(), ImageInfo::default());
    assert_eq!(s.update_surface([800, 600], Format::Argb8888), Ok(()));
    let before = s.image_info();
    assert_eq!(s.update_surface([u32::MAX, 1], Format::Argb8888), Err(SurfaceError::Overflow));
    assert_eq!(s.image_info(), before);
    assert_eq!(s.image_bytes().len(), 1_920_000);
}

#[test]
fn update_over_signed_ceiling_fails() {
    // 2^31 - 1 pixels would fit, but aligning the row to 64 bytes pushes its
    // length in pixels past the ceiling.
    let mut s = surface(64);
    assert_eq!(s.update_surface([0x7fff_ffff, 1], Format::Argb8888), Err(SurfaceError::Overflow));
    assert_eq!(s.update_surface([0x8000_0000, 1], Format::Argb8888), Err(SurfaceError::Overflow));
    assert_eq!(s.image_info(), ImageInfo::default());
    assert_eq!(s.image_bytes().len(), 1);
}

#[test]
fn update_twice_same_as_once() {
    let mut s = surface(16);
    assert_eq!(s.update_surface([33, 7], Format::Argb8888), Ok(()));
    let once = s.image_info();
    let len = s.image_bytes().len();
    assert_eq!(s.update_surface([33, 7], Format::Argb8888), Ok(()));
    assert_eq!(s.image_info(), once);
    assert_eq!(s.image_bytes().len(), len);
    assert_eq!(once.stride, 144);
    assert_eq!(len, 144 * 7);
}

#[test]
fn update_while_locked_fails() {
    let mut s = surface(1);
    assert_eq!(s.lock_image(0), Ok(()));
    assert_eq!(s.update_surface([2, 2], Format::Argb8888), Err(SurfaceError::Locked));
    assert_eq!(s.image_info(), ImageInfo::default());
    s.unlock_image();
    assert_eq!(s.update_surface([2, 2], Format::Argb8888), Ok(()));
}

#[test]
fn lock_excludes_lock_and_present() {
    let mut s = surface(4);
    assert_eq!(s.update_surface([2, 2], Format::Argb8888), Ok(()));
    assert_eq!(s.lock_image(0), Ok(()));
    assert_eq!(s.lock_image(0), Err(SurfaceError::Locked));
    assert_eq!(s.present_image(0), Err(SurfaceError::Locked));
    s.write_image(0, &[1, 2, 3]);
    assert_eq!(s.lock_image(0), Err(SurfaceError::Locked));
    s.unlock_image();
    assert!(s.present_image(0).is_ok());
    assert_eq!(s.lock_image(0), Ok(()));
}

#[test]
fn write_then_read_back_under_a_new_lock() {
    let mut s = surface(8);
    assert_eq!(s.update_surface([3, 2], Format::Argb8888), Ok(()));
    assert_eq!(s.lock_image(0), Ok(()));
    let row: Vec<u8> = (0u8..12).collect();
    s.write_image(16, &row);
    s.unlock_image();
    assert_eq!(s.lock_image(0), Ok(()));
    assert_eq!(&s.image_bytes()[16..28], &row[..]);
    assert_eq!(&s.image_bytes()[..16], &[0u8; 16][..]);
    assert_eq!(s.image_bytes().len(), 32);
}

#[test]
fn single_image_always_ready() {
    let mut s = surface(1);
    assert_eq!(s.num_images(), 1);
    assert_eq!(s.poll_next_image(), Some(0));
    assert_eq!(s.update_surface([10, 10], Format::Argb8888), Ok(()));
    assert_eq!(s.lock_image(0), Ok(()));
    assert_eq!(s.num_images(), 1);
    assert_eq!(s.poll_next_image(), Some(0));
    s.unlock_image();
    assert_eq!(s.num_images(), 1);
    assert_eq!(s.poll_next_image(), Some(0));
    assert!(s.does_preserve_image());
}

#[test]
fn supported_formats_is_argb8888() {
    let s = surface(1);
    assert_eq!(s.supported_formats(), vec![Format::Argb8888]);
    assert_eq!(Format::Argb8888.bytes_per_pixel(), 4);
}

#[test]
fn present_describes_a_top_down_blit() {
    let mut s = surface(64);
    assert_eq!(s.update_surface([17, 9], Format::Argb8888), Ok(()));
    assert_eq!(
        s.present_image(0),
        Ok(BlitParams { width: 17, height: 9, row_pixels: 32, bitmap_height: -9, bits_per_pixel: 32 })
    );
    let mut s = surface(1);
    assert_eq!(s.update_surface([800, 600], Format::Argb8888), Ok(()));
    assert_eq!(
        s.present_image(0),
        Ok(BlitParams { width: 800, height: 600, row_pixels: 800, bitmap_height: -600, bits_per_pixel: 32 })
    );
}
