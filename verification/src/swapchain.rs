//! Double buffering for tear-free frame delivery.
//!
//! Two frames alternate between the "back" role (owned by the composer,
//! which the render loop and the rasterizer write through) and the "front"
//! role (owned by the display controller, in flight or just transmitted).
//! `swap` exchanges the roles once the transfer of the front frame has
//! completed, so the composer never writes into a frame being read by a
//! transfer, and a transfer never reads a frame being composed.
//!
//! A degraded single-buffer mode shares one frame between both roles.  It
//! halves the memory footprint and accepts possible tearing; it is an
//! explicit configuration choice made at construction, not a default.

use vstd::prelude::*;
use crate::framebuffer::{DmaReadyFramebuffer, transfer_bytes};

verus! {

/// The two frames of the swapchain and the current role assignment.  In
/// single-buffer mode `other` is absent and both roles name the one frame.
pub struct Swapchain {
    first: DmaReadyFramebuffer,
    other: Option<DmaReadyFramebuffer>,
    back_is_first: bool,
}

impl Swapchain {
    /// Internal consistency: every frame well formed, both frames of one
    /// size and byte order, and in single-buffer mode the one frame holds
    /// the back role.
    pub closed spec fn wf(&self) -> bool {
        &&& self.first.wf()
        &&& match self.other {
            Some(fb) => {
                &&& fb.wf()
                &&& fb.width() == self.first.width()
                &&& fb.height() == self.first.height()
                &&& fb.swap() == self.first.swap()
            },
            None => self.back_is_first,
        }
    }

    /// Whether two distinct frames alternate between the roles.
    pub closed spec fn double_buffered(&self) -> bool {
        self.other is Some
    }

    pub closed spec fn width(&self) -> nat {
        self.first.width()
    }

    pub closed spec fn height(&self) -> nat {
        self.first.height()
    }

    pub closed spec fn swap_bytes(&self) -> bool {
        self.first.swap()
    }

    /// Identity of the frame in the back (composer) role: 0 or 1.
    pub closed spec fn back_id(&self) -> int {
        if self.back_is_first {
            0
        } else {
            1
        }
    }

    /// Identity of the frame in the front (transfer) role: 0 or 1.
    pub closed spec fn front_id(&self) -> int {
        if !self.double_buffered() {
            0
        } else if self.back_is_first {
            1
        } else {
            0
        }
    }

    /// Pixels of the frame in the back role.
    pub closed spec fn back_pixels(&self) -> Seq<u16> {
        if self.back_is_first {
            self.first.pixels()
        } else {
            self.other->Some_0.pixels()
        }
    }

    /// Pixels of the frame in the front role.
    pub closed spec fn front_pixels(&self) -> Seq<u16> {
        if self.front_id() == 0 {
            self.first.pixels()
        } else {
            self.other->Some_0.pixels()
        }
    }

    /// The fixed configuration: size, byte order, buffering mode.
    pub open spec fn same_config(&self, o: &Swapchain) -> bool {
        &&& self.width() == o.width()
        &&& self.height() == o.height()
        &&& self.swap_bytes() == o.swap_bytes()
        &&& self.double_buffered() == o.double_buffered()
    }

    /// A swapchain of one or two `width x height` frames, all pixels 0.
    /// `double_buffered` selects tear-free alternation over the halved
    /// footprint of the shared single frame.
    pub fn new(width: usize, height: usize, swap_bytes: bool, double_buffered: bool) -> (r: Self)
        requires
            width * height * 2 <= usize::MAX,
        ensures
            r.wf(),
            r.width() == width,
            r.height() == height,
            r.swap_bytes() == swap_bytes,
            r.double_buffered() == double_buffered,
            r.back_id() == 0,
            r.back_pixels() == Seq::new((width * height) as nat, |i: int| 0u16),
            r.front_pixels() == Seq::new((width * height) as nat, |i: int| 0u16),
    {
        let first = DmaReadyFramebuffer::new(width, height, swap_bytes);
        let other = if double_buffered {
            Some(DmaReadyFramebuffer::new(width, height, swap_bytes))
        } else {
            None
        };
        Swapchain { first, other, back_is_first: true }
    }

    /// Exchange the roles: the freshly transmitted frame goes to the
    /// composer, the freshly composed frame to the controller.  Only to be
    /// called once the transfer of the front frame has completed.  In
    /// single-buffer mode there is nothing to exchange.
    pub fn swap(&mut self)
        requires
            old(self).wf(),
        ensures
            final(self).wf(),
            final(self).same_config(old(self)),
            old(self).double_buffered() ==> {
                &&& final(self).back_id() == old(self).front_id()
                &&& final(self).front_id() == old(self).back_id()
                &&& final(self).back_pixels() == old(self).front_pixels()
                &&& final(self).front_pixels() == old(self).back_pixels()
            },
            !old(self).double_buffered() ==> *final(self) == *old(self),
    {
        if self.other.is_some() {
            self.back_is_first = !self.back_is_first;
        }
    }

    /// Fill the back frame with one pixel value; the front frame is
    /// untouched.
    pub fn clear_back(&mut self, color: u16)
        requires
            old(self).wf(),
        ensures
            final(self).wf(),
            final(self).same_config(old(self)),
            final(self).back_id() == old(self).back_id(),
            final(self).front_id() == old(self).front_id(),
            final(self).back_pixels() == Seq::new(old(self).back_pixels().len(), |i: int| color),
            old(self).double_buffered() ==> final(self).front_pixels() == old(
                self,
            ).front_pixels(),
    {
        if self.back_is_first {
            self.first.clear(color);
        } else {
            match &mut self.other {
                Some(fb) => fb.clear(color),
                None => {},
            }
        }
    }

    /// Write one pixel of the back frame by coordinates; a point outside
    /// the frame is ignored.  The front frame is untouched.
    pub fn set_back_pixel(&mut self, x: usize, y: usize, color: u16)
        requires
            old(self).wf(),
        ensures
            final(self).wf(),
            final(self).same_config(old(self)),
            final(self).back_id() == old(self).back_id(),
            final(self).front_id() == old(self).front_id(),
            x < old(self).width() && y < old(self).height() ==> final(self).back_pixels() == old(
                self,
            ).back_pixels().update(y * old(self).width() + x, color),
            !(x < old(self).width() && y < old(self).height()) ==> final(self).back_pixels()
                == old(self).back_pixels(),
            old(self).double_buffered() ==> final(self).front_pixels() == old(
                self,
            ).front_pixels(),
    {
        if self.back_is_first {
            self.first.set_pixel(x, y, color);
        } else {
            match &mut self.other {
                Some(fb) => fb.set_pixel(x, y, color),
                None => {},
            }
        }
    }

    /// The transfer view of the freshly composed (back) frame: exactly
    /// `width * height * 2` bytes in wire order.  The controller transmits
    /// this view as one blocking burst; once the transfer has completed,
    /// `swap` moves the frame into the front role.
    pub fn composed_bytes(&self) -> (r: Vec<u8>)
        requires
            self.wf(),
        ensures
            r@.len() == self.width() * self.height() * 2,
            r@ == transfer_bytes(self.back_pixels(), self.swap_bytes()),
    {
        if self.back_is_first {
            self.first.to_bytes()
        } else {
            match &self.other {
                Some(fb) => fb.to_bytes(),
                None => self.first.to_bytes(),
            }
        }
    }

    /// The transfer view of the front frame: what the last completed
    /// transfer put on the panel (in single-buffer mode, the one shared
    /// frame).
    pub fn front_bytes(&self) -> (r: Vec<u8>)
        requires
            self.wf(),
        ensures
            r@.len() == self.width() * self.height() * 2,
            r@ == transfer_bytes(self.front_pixels(), self.swap_bytes()),
    {
        if self.other.is_some() && self.back_is_first {
            match &self.other {
                Some(fb) => fb.to_bytes(),
                None => Vec::new(),
            }
        } else {
            self.first.to_bytes()
        }
    }

    /// In double-buffer mode the composer's frame is never the frame a
    /// transfer reads: the two roles always name distinct frames.
    pub proof fn lemma_roles_distinct(&self)
        requires
            self.wf(),
            self.double_buffered(),
        ensures
            self.back_id() != self.front_id(),
    {
    }
}

} // verus!
