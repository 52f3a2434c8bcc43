//! Linear device memory.
//!
//! A [`Buffer`] wraps one device-level buffer object. Every operation makes
//! the buffer current on the array-buffer binding point before touching the
//! device, and never assumes a binding survived from an earlier call.

use vstd::prelude::*;
use crate::device::{
    BufferSlot, BufferSlotView, Context, ContextState, Device, DeviceView, SlotState, copy_bytes,
    ctx_alive, is_current, zero_bytes, zero_seq,
};

verus! {

/// Effect of making buffer `h` current on context `c`'s array-buffer binding
/// point: only that binding point changes.
pub open spec fn bind_buffer_view(d: DeviceView, c: usize, h: u32) -> DeviceView {
    DeviceView {
        contexts: d.contexts.update(
            c as int,
            ContextState { array_buffer: h, ..d.contexts[c as int] },
        ),
        ..d
    }
}

/// Effect of creating a buffer object on context `c`: a new live slot with no
/// bytes; nothing is bound by creation alone.
pub open spec fn after_create_buffer(d: DeviceView, c: usize) -> DeviceView {
    DeviceView {
        buffers: d.buffers.push(
            BufferSlotView { ctx: c, state: SlotState::Live, bytes: Seq::empty() },
        ),
        ..d
    }
}

/// Effect of uploading `data` to buffer `h` of context `c`: the buffer is
/// bound, then its contents and size become exactly `data`.
pub open spec fn after_buffer_set_data(d: DeviceView, c: usize, h: u32, data: Seq<u8>) -> DeviceView {
    let b = bind_buffer_view(d, c, h);
    DeviceView {
        buffers: b.buffers.update(
            h - 1,
            BufferSlotView { bytes: data, ..b.buffers[h - 1] },
        ),
        ..b
    }
}

/// Effect of reallocating buffer `h` of context `c` to `n_bytes` bytes: the
/// buffer is bound, prior contents are discarded, and the fresh storage reads
/// as zero bytes in this model.
pub open spec fn after_buffer_reallocate(d: DeviceView, c: usize, h: u32, n_bytes: nat) -> DeviceView {
    let b = bind_buffer_view(d, c, h);
    DeviceView {
        buffers: b.buffers.update(
            h - 1,
            BufferSlotView { bytes: zero_seq(n_bytes), ..b.buffers[h - 1] },
        ),
        ..b
    }
}

/// Effect of creating a buffer on context `c` and immediately uploading
/// `data` to it.
pub open spec fn after_buffer_from_data(d: DeviceView, c: usize, data: Seq<u8>) -> DeviceView {
    after_buffer_set_data(after_create_buffer(d, c), c, (d.buffers.len() + 1) as u32, data)
}

/// Effect of allocating a buffer of `n_bytes` bytes on context `c`: zero
/// bytes defer the device allocation, so nothing is bound either.
pub open spec fn after_buffer_allocate(d: DeviceView, c: usize, n_bytes: nat) -> DeviceView {
    if n_bytes == 0 {
        after_create_buffer(d, c)
    } else {
        after_buffer_reallocate(after_create_buffer(d, c), c, (d.buffers.len() + 1) as u32, n_bytes)
    }
}

/// Effect of releasing the buffer at slot `i`: while the owning context is
/// alive, exactly one delete call is issued and the slot goes to `Deleted`;
/// once the context is gone, no device call is made and the device is left
/// exactly as it is.
pub open spec fn after_release_buffer(d: DeviceView, i: int) -> DeviceView {
    if ctx_alive(d, d.buffers[i].ctx) {
        DeviceView {
            buffers: d.buffers.update(
                i,
                BufferSlotView { state: SlotState::Deleted, bytes: Seq::empty(), ..d.buffers[i] },
            ),
            ..d
        }
    } else {
        d
    }
}

/// What downloading a buffer returns when the caller reads it as elements of
/// `element_size` bytes: the longest prefix that holds whole elements; a
/// remainder is silently dropped, not an error.
pub open spec fn read_back(bytes: Seq<u8>, element_size: int) -> Seq<u8> {
    bytes.take(((bytes.len() as int) / element_size) * element_size)
}

/// A buffer of linear device memory, owned by application code and tied to
/// the context that created it.
pub struct Buffer {
    /// Identifier of the owning context.
    pub ctx: usize,
    /// Device-level handle of the buffer object; never zero.
    pub handle: u32,
}

impl Buffer {
    /// Index of this buffer's slot in the device's buffer table.
    pub open spec fn index(self) -> int {
        self.handle - 1
    }

    /// The buffer's slot exists, is live, and belongs to the context the
    /// buffer records.
    pub open spec fn valid(self, d: DeviceView) -> bool {
        &&& 1 <= self.handle
        &&& self.index() < d.buffers.len()
        &&& d.buffers[self.index()].ctx == self.ctx
        &&& d.buffers[self.index()].state == SlotState::Live
        &&& self.ctx < d.contexts.len()
    }

    /// Creates a fresh buffer object with no storage.
    fn new(d: &mut Device, ctx: &Context) -> (b: Buffer)
        requires
            old(d).wf(),
            is_current(old(d)@, ctx@),
            old(d)@.buffers.len() < 0xFFFF_FFFFusize,
        ensures
            final(d).wf(),
            final(d)@ == after_create_buffer(old(d)@, ctx@),
            b.valid(final(d)@),
            b.ctx == ctx@,
            b.index() == old(d)@.buffers.len(),
    {
        let handle_usize = d.buffers.len() + 1;
        let handle = handle_usize as u32;
        d.buffers.push(BufferSlot { ctx: ctx.id, state: SlotState::Live, bytes: Vec::new() });
        proof {
            assert(d@ =~~= after_create_buffer(old(d)@, ctx@));
        }
        Buffer { ctx: ctx.id, handle }
    }

    /// Gets the device-level handle.
    pub fn resource(&self) -> (r: u32)
        ensures
            r == self.handle,
    {
        self.handle
    }

    /// Makes this buffer current on its binding point.
    pub(crate) fn bind(&self, d: &mut Device)
        requires
            old(d).wf(),
            self.valid(old(d)@),
            is_current(old(d)@, self.ctx),
        ensures
            final(d).wf(),
            final(d)@ == bind_buffer_view(old(d)@, self.ctx, self.handle),
            self.valid(final(d)@),
    {
        let mut meta = d.contexts[self.ctx];
        meta.array_buffer = self.handle;
        d.contexts.set(self.ctx, meta);
        proof {
            assert(d@ =~~= bind_buffer_view(old(d)@, self.ctx, self.handle));
        }
    }

    /// Replaces the buffer's contents and size with `data`.
    pub fn set_data(&self, d: &mut Device, data: &[u8])
        requires
            old(d).wf(),
            self.valid(old(d)@),
            is_current(old(d)@, self.ctx),
        ensures
            final(d).wf(),
            final(d)@ == after_buffer_set_data(old(d)@, self.ctx, self.handle, data@),
            self.valid(final(d)@),
    {
        self.bind(d);
        let i = (self.handle - 1) as usize;
        let c = self.ctx;
        let bytes = copy_bytes(data);
        d.buffers.set(i, BufferSlot { ctx: c, state: SlotState::Live, bytes });
        proof {
            assert(d@ =~~= after_buffer_set_data(old(d)@, self.ctx, self.handle, data@));
        }
    }

    /// Replaces the backing storage with `size` fresh bytes, discarding
    /// prior contents.
    pub fn reallocate(&self, d: &mut Device, size: usize)
        requires
            old(d).wf(),
            self.valid(old(d)@),
            is_current(old(d)@, self.ctx),
        ensures
            final(d).wf(),
            final(d)@ == after_buffer_reallocate(old(d)@, self.ctx, self.handle, size as nat),
            self.valid(final(d)@),
    {
        self.bind(d);
        let i = (self.handle - 1) as usize;
        let c = self.ctx;
        let bytes = zero_bytes(size);
        d.buffers.set(i, BufferSlot { ctx: c, state: SlotState::Live, bytes });
        proof {
            assert(d@ =~~= after_buffer_reallocate(old(d)@, self.ctx, self.handle, size as nat));
        }
    }

    /// Creates a buffer and immediately uploads `data`.
    pub fn from_data(d: &mut Device, ctx: &Context, data: &[u8]) -> (b: Buffer)
        requires
            old(d).wf(),
            is_current(old(d)@, ctx@),
            old(d)@.buffers.len() < 0xFFFF_FFFFusize,
        ensures
            final(d).wf(),
            final(d)@ == after_buffer_from_data(old(d)@, ctx@, data@),
            b.valid(final(d)@),
            b.ctx == ctx@,
            b.index() == old(d)@.buffers.len(),
    {
        let b = Buffer::new(d, ctx);
        b.set_data(d, data);
        b
    }

    /// Allocates a buffer with `n_bytes` bytes of storage. Zero bytes are
    /// legal and defer the device allocation until the first write.
    pub fn allocate(d: &mut Device, ctx: &Context, n_bytes: usize) -> (b: Buffer)
        requires
            old(d).wf(),
            is_current(old(d)@, ctx@),
            old(d)@.buffers.len() < 0xFFFF_FFFFusize,
        ensures
            final(d).wf(),
            final(d)@ == after_buffer_allocate(old(d)@, ctx@, n_bytes as nat),
            b.valid(final(d)@),
            b.ctx == ctx@,
            b.index() == old(d)@.buffers.len(),
    {
        let b = Buffer::new(d, ctx);
        if n_bytes > 0 {
            b.reallocate(d, n_bytes);
        }
        b
    }

    /// Queries the device for the currently allocated size in bytes. It
    /// reflects exactly the most recent upload or reallocation.
    pub fn size(&self, d: &mut Device) -> (r: usize)
        requires
            old(d).wf(),
            self.valid(old(d)@),
            is_current(old(d)@, self.ctx),
        ensures
            final(d).wf(),
            final(d)@ == bind_buffer_view(old(d)@, self.ctx, self.handle),
            r == old(d)@.buffers[self.index()].bytes.len(),
            self.valid(final(d)@),
    {
        self.bind(d);
        let i = (self.handle - 1) as usize;
        let slot = &d.buffers[i];
        slot.bytes.len()
    }

    /// Downloads the buffer as elements of `element_size` bytes: the result
    /// is the longest prefix of the contents holding whole elements; any
    /// remainder is silently dropped.
    #[verifier::loop_isolation(false)]
    pub fn data(&self, d: &mut Device, element_size: usize) -> (r: Vec<u8>)
        requires
            old(d).wf(),
            self.valid(old(d)@),
            is_current(old(d)@, self.ctx),
            element_size >= 1,
        ensures
            final(d).wf(),
            final(d)@ == bind_buffer_view(old(d)@, self.ctx, self.handle),
            r@ == read_back(old(d)@.buffers[self.index()].bytes, element_size as int),
    {
        self.bind(d);
        let i = (self.handle - 1) as usize;
        let n = d.buffers[i].bytes.len();
        let count = n / element_size;
        proof {
            vstd::arithmetic::div_mod::lemma_fundamental_div_mod(n as int, element_size as int);
            vstd::arithmetic::div_mod::lemma_mod_bound(n as int, element_size as int);
            vstd::arithmetic::mul::lemma_mul_is_commutative(count as int, element_size as int);
            assert(count * element_size <= n);
        }
        let total = count * element_size;
        let mut out: Vec<u8> = Vec::new();
        let mut j: usize = 0;
        while j < total
            invariant
                j <= total,
                out@ == d@.buffers[self.index()].bytes.take(j as int),
            decreases total - j,
        {
            let slot = &d.buffers[i];
            out.push(slot.bytes[j]);
            proof {
                assert(out@ =~= d@.buffers[self.index()].bytes.take((j + 1) as int));
            }
            j = j + 1;
        }
        out
    }

    /// Releases the buffer, as its destruction does: if the owning context is
    /// still alive, exactly one delete call is issued for it and the result
    /// is `true`; if the context is gone, no device call is made, the device
    /// is untouched, and the result is `false`.
    pub fn release(self, d: &mut Device) -> (deleted: bool)
        requires
            old(d).wf(),
            self.valid(old(d)@),
        ensures
            final(d).wf(),
            deleted == ctx_alive(old(d)@, self.ctx),
            final(d)@ == after_release_buffer(old(d)@, self.index()),
    {
        if d.contexts[self.ctx].alive {
            let i = (self.handle - 1) as usize;
            let c = self.ctx;
            d.buffers.set(i, BufferSlot { ctx: c, state: SlotState::Deleted, bytes: Vec::new() });
            proof {
                assert(d@ =~~= after_release_buffer(old(d)@, self.index()));
            }
            true
        } else {
            proof {
                assert(d@ =~~= after_release_buffer(old(d)@, self.index()));
            }
            false
        }
    }
}

} // verus!
