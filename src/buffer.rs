//! The byte region that backs an image.
use vstd::prelude::*;
use crate::align::{is_pow2, Align};

verus! {

/// `s` brought to length `n`: bytes that stay keep their value, new bytes
/// are zero.
pub open spec fn resized(s: Seq<u8>, n: nat) -> Seq<u8> {
    Seq::new(n, |j: int| if j < s.len() { s[j] } else { 0u8 })
}

/// `s` with the bytes from `offset` on replaced by `src`.
pub open spec fn overwritten(s: Seq<u8>, offset: int, src: Seq<u8>) -> Seq<u8> {
    Seq::new(s.len(), |j: int| if offset <= j < offset + src.len() { src[j - offset] } else { s[j] })
}

/// An owned, resizable byte region. It carries the alignment it was made
/// with through every resize; the bytes lie where the allocator put them.
#[derive(Debug)]
pub struct Buffer {
    data: Vec<u8>,
    align: Align,
}

impl View for Buffer {
    type V = Seq<u8>;

    closed spec fn view(&self) -> Seq<u8> {
        self.data@
    }
}

impl Buffer {
    /// The alignment the buffer was made with.
    pub closed spec fn spec_align(&self) -> nat {
        self.align.spec_value()
    }

    /// The alignment is a power of two.
    pub closed spec fn wf(&self) -> bool {
        is_pow2(self.align.spec_value())
    }

    /// A buffer of `size` zero bytes with alignment `align`; `None` unless
    /// `align` is a power of two.
    pub fn from_size_align(size: usize, align: usize) -> (r: Option<Buffer>)
        ensures
            r is Some <==> is_pow2(align as nat),
            r matches Some(b) ==> b.wf() && b@ == Seq::new(size as nat, |j: int| 0u8)
                && b.spec_align() == align,
    {
        match Align::new(align) {
            Some(a) => {
                let data = vec![0u8; size];
                let b = Buffer { data, align: a };
                assert(b@ =~= Seq::new(size as nat, |j: int| 0u8));
                Some(b)
            },
            None => None,
        }
    }

    /// Brings the buffer to `new_size` bytes. The alignment stays; the bytes
    /// that stay keep their value and new ones are zero.
    pub fn resize(&mut self, new_size: usize)
        requires
            old(self).wf(),
        ensures
            final(self).wf(),
            final(self)@ == resized(old(self)@, new_size as nat),
            final(self).spec_align() == old(self).spec_align(),
    {
        self.data.resize(new_size, 0u8);
        assert(self@ =~= resized(old(self)@, new_size as nat));
    }

    /// Number of bytes held.
    pub fn len(&self) -> (r: usize)
        ensures
            r == self@.len(),
    {
        self.data.len()
    }

    /// All the bytes, for reading.
    pub fn as_slice(&self) -> (r: &[u8])
        ensures
            r@ == self@,
    {
        self.data.as_slice()
    }

    /// Copies `src` into the buffer from byte `offset` on.
    pub fn write(&mut self, offset: usize, src: &[u8])
        requires
            offset + src@.len() <= old(self)@.len(),
        ensures
            final(self)@ == overwritten(old(self)@, offset as int, src@),
            final(self).spec_align() == old(self).spec_align(),
            final(self).wf() == old(self).wf(),
    {
        let n = src.len();
        let len = self.data.len();
        let mut i: usize = 0;
        while i < n
            invariant
                i <= n,
                n == src@.len(),
                offset + n <= len,
                len == old(self)@.len(),
                self.align == old(self).align,
                self@ == overwritten(old(self)@, offset as int, src@.subrange(0, i as int)),
            decreases n - i,
        {
            self.data[offset + i] = src[i];
            i = i + 1;
            assert(self@ =~= overwritten(old(self)@, offset as int, src@.subrange(0, i as int)));
        }
        assert(src@.subrange(0, n as int) =~= src@);
    }
}

} // verus!
