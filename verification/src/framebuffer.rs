//! A fixed-size RGB565 pixel store laid out for direct bus transfer.
//!
//! The store keeps each pixel as one 16-bit word already in wire order, so
//! the transfer view is a plain byte-for-byte rendering of the words.  A
//! `swap_bytes` flag, fixed at construction for the buffer's lifetime,
//! exchanges the two bytes of every pixel on the way in, compensating for a
//! byte-order mismatch between the host's pixel representation and the order
//! the panel expects on the wire.

use vstd::prelude::*;

verus! {

/// The two bytes of a 16-bit value, exchanged.
pub open spec fn spec_swap16(p: u16) -> u16 {
    (((p % 256) * 256) + (p / 256)) as u16
}

/// High (first) byte of a big-endian rendering.
pub open spec fn hi_byte(p: u16) -> u8 {
    (p / 256) as u8
}

/// Low (second) byte of a big-endian rendering.
pub open spec fn lo_byte(p: u16) -> u8 {
    (p % 256) as u8
}

/// The wire form of a logical pixel value: big-endian, unless `swap` asks
/// for the two bytes to be exchanged.
pub open spec fn wire_word(p: u16, swap: bool) -> u16 {
    if swap {
        spec_swap16(p)
    } else {
        p
    }
}

/// The byte stream that a pixel sequence presents for transfer: two bytes
/// per pixel, high byte first, or low byte first when `swap` is set.
pub open spec fn transfer_bytes(pixels: Seq<u16>, swap: bool) -> Seq<u8> {
    Seq::new(
        pixels.len() * 2,
        |i: int|
            if i % 2 == 0 {
                if swap {
                    lo_byte(pixels[i / 2])
                } else {
                    hi_byte(pixels[i / 2])
                }
            } else {
                if swap {
                    hi_byte(pixels[i / 2])
                } else {
                    lo_byte(pixels[i / 2])
                }
            },
    )
}

/// A pixel written as a 16-bit value crosses the wire as its high byte
/// then its low byte, or the other way around when the buffer was made
/// with `swap` set: the one transform is fixed for every pixel of the
/// frame.
pub proof fn lemma_wire_byte_order(pixels: Seq<u16>, swap: bool, i: int)
    requires
        0 <= i < pixels.len(),
    ensures
        !swap ==> transfer_bytes(pixels, swap)[2 * i] == hi_byte(pixels[i]),
        !swap ==> transfer_bytes(pixels, swap)[2 * i + 1] == lo_byte(pixels[i]),
        swap ==> transfer_bytes(pixels, swap)[2 * i] == lo_byte(pixels[i]),
        swap ==> transfer_bytes(pixels, swap)[2 * i + 1] == hi_byte(pixels[i]),
{
}

/// The transfer view of any pixel sequence is exactly two bytes per pixel:
/// a full frame goes out whole or not at all.
pub proof fn lemma_frame_transfer_size(pixels: Seq<u16>, swap: bool)
    ensures
        transfer_bytes(pixels, swap).len() == 2 * pixels.len(),
{
}

/// Exchanging the bytes of a word twice gives the word back.
pub proof fn lemma_swap16_involution(p: u16)
    ensures
        spec_swap16(spec_swap16(p)) == p,
{
    assert(spec_swap16(spec_swap16(p)) == p) by (nonlinear_arith);
}

/// A width x height grid of 16-bit RGB565 pixels whose memory is ready to
/// hand to a DMA-driven transfer with no further copy or transform.
pub struct DmaReadyFramebuffer {
    width: usize,
    height: usize,
    swap_bytes: bool,
    /// Stored words, already in wire order.
    data: Vec<u16>,
}

impl DmaReadyFramebuffer {
    /// Internal consistency: one stored word per pixel, and the byte count
    /// of the whole frame fits the machine.
    pub closed spec fn wf(&self) -> bool {
        &&& self.data@.len() == self.width * self.height
        &&& self.width * self.height * 2 <= usize::MAX
    }

    pub closed spec fn width(&self) -> nat {
        self.width as nat
    }

    pub closed spec fn height(&self) -> nat {
        self.height as nat
    }

    pub closed spec fn swap(&self) -> bool {
        self.swap_bytes
    }

    /// The logical pixel values, row-major.
    pub closed spec fn pixels(&self) -> Seq<u16> {
        self.data@.map_values(|w: u16| wire_word(w, self.swap_bytes))
    }

    /// Make a buffer of the given size, filled with pixel value 0 (black).
    /// The `swap_bytes` choice is fixed for the buffer's lifetime.
    pub fn new(width: usize, height: usize, swap_bytes: bool) -> (r: Self)
        requires
            width * height * 2 <= usize::MAX,
        ensures
            r.wf(),
            r.width() == width,
            r.height() == height,
            r.swap() == swap_bytes,
            r.pixels() == Seq::new((width * height) as nat, |i: int| 0u16),
    {
        let n = width * height;
        let mut data: Vec<u16> = Vec::new();
        let mut i: usize = 0;
        while i < n
            invariant
                i <= n,
                data@.len() == i,
                forall|k: int| 0 <= k < i ==> data@[k] == 0u16,
            decreases n - i,
        {
            data.push(0u16);
            i = i + 1;
        }
        let r = DmaReadyFramebuffer { width, height, swap_bytes, data };
        proof {
            assert(r.pixels() =~= Seq::new((width * height) as nat, |i: int| 0u16));
        }
        r
    }

    /// Write one pixel by raw row-major offset.  An offset beyond the frame
    /// is ignored.
    pub fn set_at_offset(&mut self, offset: usize, color: u16)
        requires
            old(self).wf(),
        ensures
            final(self).wf(),
            final(self).width() == old(self).width(),
            final(self).height() == old(self).height(),
            final(self).swap() == old(self).swap(),
            offset < old(self).pixels().len() ==> final(self).pixels() == old(self).pixels()
                .update(offset as int, color),
            offset >= old(self).pixels().len() ==> final(self).pixels() == old(self).pixels(),
    {
        if offset < self.data.len() {
            let w = if self.swap_bytes {
                let hi = color / 256;
                let lo = color % 256;
                lo * 256 + hi
            } else {
                color
            };
            self.data.set(offset, w);
            proof {
                assert(w == wire_word(color, self.swap_bytes));
                assert(wire_word(w, self.swap_bytes) == color) by {
                    lemma_swap16_involution(color);
                };
                assert(self.pixels() =~= old(self).pixels().update(offset as int, color));
            }
        }
    }

    /// Write one pixel by coordinates.  A point outside the frame is
    /// ignored.
    pub fn set_pixel(&mut self, x: usize, y: usize, color: u16)
        requires
            old(self).wf(),
        ensures
            final(self).wf(),
            final(self).width() == old(self).width(),
            final(self).height() == old(self).height(),
            final(self).swap() == old(self).swap(),
            x < old(self).width() && y < old(self).height() ==> final(self).pixels() == old(
                self,
            ).pixels().update(y * old(self).width() + x, color),
            !(x < old(self).width() && y < old(self).height()) ==> final(self).pixels() == old(
                self,
            ).pixels(),
    {
        if x < self.width && y < self.height {
            proof {
                assert(y * self.width + x < self.width * self.height) by (nonlinear_arith)
                    requires
                        x < self.width,
                        y < self.height,
                ;
            }
            let offset = y * self.width + x;
            self.set_at_offset(offset, color);
        }
    }

    /// Fill the whole frame with one pixel value.
    pub fn clear(&mut self, color: u16)
        requires
            old(self).wf(),
        ensures
            final(self).wf(),
            final(self).width() == old(self).width(),
            final(self).height() == old(self).height(),
            final(self).swap() == old(self).swap(),
            final(self).pixels() == Seq::new(old(self).pixels().len(), |i: int| color),
    {
        let w = if self.swap_bytes {
            let hi = color / 256;
            let lo = color % 256;
            lo * 256 + hi
        } else {
            color
        };
        proof {
            assert(wire_word(w, self.swap_bytes) == color) by {
                lemma_swap16_involution(color);
            };
        }
        let n = self.data.len();
        let mut i: usize = 0;
        while i < n
            invariant
                i <= n,
                self.data@.len() == n,
                self.width == old(self).width,
                self.height == old(self).height,
                self.swap_bytes == old(self).swap_bytes,
                wire_word(w, self.swap_bytes) == color,
                forall|k: int| 0 <= k < i ==> self.data@[k] == w,
                forall|k: int| i <= k < n ==> self.data@[k] == old(self).data@[k],
            decreases n - i,
        {
            self.data.set(i, w);
            i = i + 1;
        }
        proof {
            assert(self.pixels() =~= Seq::new(old(self).pixels().len(), |i: int| color));
        }
    }

    /// The read-only transfer view of the frame: exactly
    /// `width * height * 2` bytes, two per pixel, in wire order.
    pub fn to_bytes(&self) -> (r: Vec<u8>)
        requires
            self.wf(),
        ensures
            r@.len() == self.width() * self.height() * 2,
            r@ == transfer_bytes(self.pixels(), self.swap()),
    {
        let n = self.data.len();
        let mut out: Vec<u8> = Vec::new();
        let mut i: usize = 0;
        while i < n
            invariant
                i <= n,
                self.wf(),
                n == self.data@.len(),
                out@.len() == 2 * i,
                forall|k: int|
                    0 <= k < 2 * i ==> out@[k] == transfer_bytes(self.pixels(), self.swap())[k],
            decreases n - i,
        {
            let w = self.data[i];
            out.push((w / 256) as u8);
            out.push((w % 256) as u8);
            proof {
                let pix = self.pixels();
                let sw = self.swap();
                assert(pix[i as int] == wire_word(w, sw));
                if sw {
                    lemma_swap16_involution(pix[i as int]);
                    assert(w == spec_swap16(pix[i as int]));
                    assert(w / 256 == pix[i as int] % 256) by (nonlinear_arith)
                        requires
                            w == spec_swap16(pix[i as int]),
                    ;
                    assert(w % 256 == pix[i as int] / 256) by (nonlinear_arith)
                        requires
                            w == spec_swap16(pix[i as int]),
                    ;
                }
                assert(out@[2 * i as int] == transfer_bytes(pix, sw)[2 * i as int]);
                assert(out@[2 * i + 1] == transfer_bytes(pix, sw)[2 * i + 1]);
            }
            i = i + 1;
        }
        proof {
            assert(out@ =~= transfer_bytes(self.pixels(), self.swap()));
        }
        out
    }

    /// Pixel count of the frame.
    pub fn len(&self) -> (r: usize)
        requires
            self.wf(),
        ensures
            r == self.pixels().len(),
    {
        self.data.len()
    }
}

} // verus!
