//! Renderbuffers: depth-capable attachment storage.
//!
//! A [`Renderbuffer`] wraps one device-level renderbuffer object, or stands
//! as an empty placeholder with no device handle. No contents are read or
//! written through this layer; renderbuffers exist to be attached to a
//! framebuffer. A renderbuffer holds only a weak reference to its context,
//! which its release consults before issuing a delete call.

use vstd::prelude::*;
use crate::device::{
    Context, ContextState, Device, DeviceView, RenderbufferSlot, SlotState, WeakContext,
    ctx_alive, is_current,
};

verus! {

/// Effect of creating a renderbuffer of `width` by `height` depth-capable
/// storage on context `c`: a new live slot, made current on the
/// renderbuffer binding point.
pub open spec fn after_renderbuffer_new(d: DeviceView, c: usize, width: u32, height: u32) -> DeviceView {
    let h = (d.renderbuffers.len() + 1) as u32;
    DeviceView {
        renderbuffers: d.renderbuffers.push(
            RenderbufferSlot { ctx: c, state: SlotState::Live, width, height },
        ),
        contexts: d.contexts.update(
            c as int,
            ContextState { renderbuffer: h, ..d.contexts[c as int] },
        ),
        ..d
    }
}

/// Effect of releasing a renderbuffer with handle `h` owned by context `c`:
/// a placeholder (handle zero) never touches the device; otherwise, while
/// the context is alive, exactly one delete call is issued and the slot
/// goes to `Deleted`; once the context is gone, no device call is made and
/// the device is left exactly as it is.
pub open spec fn after_release_renderbuffer(d: DeviceView, h: u32, c: usize) -> DeviceView {
    if h == 0 || !ctx_alive(d, c) {
        d
    } else {
        DeviceView {
            renderbuffers: d.renderbuffers.update(
                h - 1,
                RenderbufferSlot { state: SlotState::Deleted, ..d.renderbuffers[h - 1] },
            ),
            ..d
        }
    }
}

/// A renderbuffer, owned by application code. It keeps only a weak
/// reference to the context that created it, so the two can be dropped in
/// either order.
pub struct Renderbuffer {
    /// Weak reference to the owning context.
    pub context: WeakContext,
    /// Device-level handle, or zero for a placeholder that was never
    /// materialized on the device.
    pub handle: u32,
}

impl Renderbuffer {
    /// Index of this renderbuffer's slot in the device's table; meaningful
    /// only when the handle is not zero.
    pub open spec fn index(self) -> int {
        self.handle - 1
    }

    /// Either a placeholder with no device handle, or a live slot owned by
    /// the context the weak reference names.
    pub open spec fn valid(self, d: DeviceView) -> bool {
        &&& self.context@ < d.contexts.len()
        &&& self.handle != 0 ==> {
            &&& self.index() < d.renderbuffers.len()
            &&& d.renderbuffers[self.index()].ctx == self.context@
            &&& d.renderbuffers[self.index()].state == SlotState::Live
        }
    }

    /// Creates a placeholder renderbuffer with no device handle. It must
    /// not be bound or attached before storage is materialized through
    /// [`Self::new`].
    pub fn default(context: &Context) -> (r: Renderbuffer)
        ensures
            r.handle == 0,
            r.context@ == context@,
    {
        Renderbuffer { context: context.weak_ref(), handle: 0 }
    }

    /// Creates a renderbuffer with `width` by `height` depth-capable
    /// storage, leaving it current on the renderbuffer binding point.
    pub fn new(d: &mut Device, context: &Context, width: u32, height: u32) -> (r: Renderbuffer)
        requires
            old(d).wf(),
            is_current(old(d)@, context@),
            old(d)@.renderbuffers.len() < 0xFFFF_FFFFusize,
        ensures
            final(d).wf(),
            final(d)@ == after_renderbuffer_new(old(d)@, context@, width, height),
            r.valid(final(d)@),
            r.context@ == context@,
            r.index() == old(d)@.renderbuffers.len(),
            r.handle != 0,
    {
        let handle_usize = d.renderbuffers.len() + 1;
        let handle = handle_usize as u32;
        d.renderbuffers.push(
            RenderbufferSlot { ctx: context.id, state: SlotState::Live, width, height },
        );
        let mut meta = d.contexts[context.id];
        meta.renderbuffer = handle;
        d.contexts.set(context.id, meta);
        proof {
            assert(d@ =~~= after_renderbuffer_new(old(d)@, context@, width, height));
        }
        Renderbuffer { context: context.weak_ref(), handle }
    }

    /// Gets the device-level handle; zero for a placeholder.
    pub fn resource(&self) -> (r: u32)
        ensures
            r == self.handle,
    {
        self.handle
    }

    /// Releases the renderbuffer, as its destruction does: it consults the
    /// weak context reference first. If the renderbuffer was materialized
    /// and its context is still alive, exactly one delete call is issued
    /// and the result is `true`; otherwise no device call is made, the
    /// device is untouched, and the result is `false`.
    pub fn release(self, d: &mut Device) -> (deleted: bool)
        requires
            old(d).wf(),
            self.valid(old(d)@),
        ensures
            final(d).wf(),
            deleted == (self.handle != 0 && ctx_alive(old(d)@, self.context@)),
            final(d)@ == after_release_renderbuffer(old(d)@, self.handle, self.context@),
    {
        if self.handle == 0 {
            proof {
                assert(d@ =~~= after_release_renderbuffer(old(d)@, self.handle, self.context@));
            }
            false
        } else if self.context.is_alive(d) {
            let i = (self.handle - 1) as usize;
            let mut slot = d.renderbuffers[i];
            slot.state = SlotState::Deleted;
            d.renderbuffers.set(i, slot);
            proof {
                assert(d@ =~~= after_release_renderbuffer(old(d)@, self.handle, self.context@));
            }
            true
        } else {
            proof {
                assert(d@ =~~= after_release_renderbuffer(old(d)@, self.handle, self.context@));
            }
            false
        }
    }
}

} // verus!
