//! Laws that relate the operations of a surface.
use vstd::prelude::*;
use crate::align::lemma_round_up;
use crate::image::{bytes_per_pixel, Format};
use crate::surface::{
    after_lock, after_unlock, after_write, lock_outcome, present_outcome, stride_for,
    update_outcome, updated, SurfaceError, SurfaceView, SIGNED_CEILING,
};

verus! {

/// After a successful resize the layout holds the new extent and format, and
/// its row length is a multiple of the scanline alignment that holds a whole
/// row of pixels.
pub proof fn lemma_update_layout(v: SurfaceView, extent: [u32; 2], format: Format)
    requires
        v.wf(),
        extent[0] > 0,
        extent[1] > 0,
        extent[1] <= SIGNED_CEILING,
        update_outcome(v, extent, format) is Ok,
    ensures
        updated(v, extent, format).info.extent == extent,
        updated(v, extent, format).info.format == format,
        updated(v, extent, format).info.stride as nat % v.scanline_align == 0,
        updated(v, extent, format).info.stride as nat >= extent[0] as nat * bytes_per_pixel(format),
        updated(v, extent, format).bytes.len() == updated(v, extent, format).info.stride as nat
            * extent[1] as nat,
{
    lemma_round_up(extent[0] as nat * bytes_per_pixel(format), v.scanline_align, 0);
}

/// A resize whose row length in pixels passes the signed 32-bit ceiling
/// fails and leaves the surface as it was.
pub proof fn lemma_update_over_ceiling(v: SurfaceView, extent: [u32; 2], format: Format)
    requires
        v.wf(),
        stride_for(extent, format, v.scanline_align) / bytes_per_pixel(format) > SIGNED_CEILING,
    ensures
        update_outcome(v, extent, format) is Err,
        updated(v, extent, format) == v,
{
}

/// Resizing twice to the same extent and format ends where resizing once
/// does, with the same outcome and the same buffer size.
pub proof fn lemma_update_idempotent(v: SurfaceView, extent: [u32; 2], format: Format)
    requires
        v.wf(),
        extent[0] > 0,
        extent[1] > 0,
        extent[1] <= SIGNED_CEILING,
    ensures
        update_outcome(updated(v, extent, format), extent, format) == update_outcome(
            v,
            extent,
            format,
        ),
        updated(updated(v, extent, format), extent, format) == updated(v, extent, format),
        updated(updated(v, extent, format), extent, format).bytes.len() == updated(
            v,
            extent,
            format,
        ).bytes.len(),
{
    let once = updated(v, extent, format);
    let twice = updated(once, extent, format);
    assert(twice.bytes =~= once.bytes);
}

/// While the image is locked, neither a second lock nor a present takes
/// place, whatever is written meanwhile; once the lock is released both do.
pub proof fn lemma_lock_exclusive(v: SurfaceView, offset: int, src: Seq<u8>)
    requires
        v.wf(),
        !v.locked,
    ensures
        lock_outcome(v) is Ok,
        lock_outcome(after_write(after_lock(v), offset, src)) == Err::<(), _>(SurfaceError::Locked),
        present_outcome(after_write(after_lock(v), offset, src)) is Err,
        lock_outcome(after_unlock(after_write(after_lock(v), offset, src))) is Ok,
        present_outcome(after_unlock(after_write(after_lock(v), offset, src))) is Ok,
{
}

/// Bytes written under a lock are read back unchanged under the next lock.
pub proof fn lemma_write_read_back(v: SurfaceView, offset: int, src: Seq<u8>)
    requires
        v.wf(),
        !v.locked,
        0 <= offset,
        offset + src.len() <= v.bytes.len(),
    ensures
        lock_outcome(after_unlock(after_write(after_lock(v), offset, src))) is Ok,
        after_lock(after_unlock(after_write(after_lock(v), offset, src))).bytes.subrange(
            offset,
            offset + src.len(),
        ) == src,
{
    let w = after_lock(after_unlock(after_write(after_lock(v), offset, src)));
    assert(w.bytes.subrange(offset, offset + src.len()) =~= src);
}

} // verus!
