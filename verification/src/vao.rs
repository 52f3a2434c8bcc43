//! Vertex array state: the draw input assembly descriptor.
//!
//! A [`VertexArrayObject`] wraps one device-level vertex array state object.
//! Each of its attribute slots independently names a [`Buffer`] as the vertex
//! source for one shader input, as contiguous 32-bit float components
//! starting at byte offset zero; setting one slot never disturbs the others.

use vstd::prelude::*;
use crate::buffer::Buffer;
use crate::device::{
    Context, ContextState, Device, DeviceView, MAX_VERTEX_ATTRIBUTES, SlotState, VaoSlot,
    VaoSlotView, VertexAttrib, ctx_alive, is_current,
};

verus! {

/// The attribute slots of a freshly created vertex array state object: all
/// of them unset.
pub open spec fn empty_attribs() -> Seq<Option<VertexAttrib>> {
    Seq::new(MAX_VERTEX_ATTRIBUTES as nat, |i: int| None::<VertexAttrib>)
}

/// Effect of making vertex array state `h` current on context `c`'s binding
/// point: only that binding point changes.
pub open spec fn bind_vao_view(d: DeviceView, c: usize, h: u32) -> DeviceView {
    DeviceView {
        contexts: d.contexts.update(
            c as int,
            ContextState { vertex_array: h, ..d.contexts[c as int] },
        ),
        ..d
    }
}

/// Effect of creating a vertex array state object on context `c`: a new live
/// slot with every attribute unset; nothing is bound by creation alone.
pub open spec fn after_create_vao(d: DeviceView, c: usize) -> DeviceView {
    DeviceView {
        vaos: d.vaos.push(
            VaoSlotView { ctx: c, state: SlotState::Live, attribs: empty_attribs() },
        ),
        ..d
    }
}

/// Effect of setting attribute `index` of vertex array state `vh` on context
/// `c` to read from buffer `bh` with `components` 32-bit float components
/// per vertex: the vertex array state and the buffer are bound, and exactly
/// the one attribute slot changes.
pub open spec fn after_vao_set_attrib(
    d: DeviceView,
    c: usize,
    vh: u32,
    bh: u32,
    index: u32,
    components: u32,
) -> DeviceView {
    let b = DeviceView {
        contexts: d.contexts.update(
            c as int,
            ContextState { vertex_array: vh, array_buffer: bh, ..d.contexts[c as int] },
        ),
        ..d
    };
    DeviceView {
        vaos: b.vaos.update(
            vh - 1,
            VaoSlotView {
                attribs: b.vaos[vh - 1].attribs.update(
                    index as int,
                    Some(VertexAttrib { buffer: bh, components }),
                ),
                ..b.vaos[vh - 1]
            },
        ),
        ..b
    }
}

/// Effect of releasing the vertex array state at slot `i`: while the owning
/// context is alive, exactly one delete call is issued and the slot goes to
/// `Deleted`; once the context is gone, no device call is made and the
/// device is left exactly as it is.
pub open spec fn after_release_vao(d: DeviceView, i: int) -> DeviceView {
    if ctx_alive(d, d.vaos[i].ctx) {
        DeviceView {
            vaos: d.vaos.update(
                i,
                VaoSlotView { state: SlotState::Deleted, attribs: Seq::empty(), ..d.vaos[i] },
            ),
            ..d
        }
    } else {
        d
    }
}

/// Vertex array state, owned by application code and tied to the context
/// that created it. The vertex count it carries is bookkeeping for draw
/// calls only and is not derived from any attached buffer.
pub struct VertexArrayObject {
    /// Identifier of the owning context.
    pub ctx: usize,
    /// Device-level handle of the vertex array state object; never zero.
    pub handle: u32,
    /// Number of vertices a subsequent draw should consume.
    pub vertices: u32,
}

impl VertexArrayObject {
    /// Index of this object's slot in the device's vertex array state table.
    pub open spec fn index(self) -> int {
        self.handle - 1
    }

    /// The object's slot exists, is live, and belongs to the context the
    /// object records.
    pub open spec fn valid(self, d: DeviceView) -> bool {
        &&& 1 <= self.handle
        &&& self.index() < d.vaos.len()
        &&& d.vaos[self.index()].ctx == self.ctx
        &&& d.vaos[self.index()].state == SlotState::Live
        &&& self.ctx < d.contexts.len()
    }

    /// Creates a new vertex array state object with every attribute unset
    /// and a vertex count of zero.
    #[verifier::loop_isolation(false)]
    pub fn new(d: &mut Device, ctx: &Context) -> (v: VertexArrayObject)
        requires
            old(d).wf(),
            is_current(old(d)@, ctx@),
            old(d)@.vaos.len() < 0xFFFF_FFFFusize,
        ensures
            final(d).wf(),
            final(d)@ == after_create_vao(old(d)@, ctx@),
            v.valid(final(d)@),
            v.ctx == ctx@,
            v.index() == old(d)@.vaos.len(),
            v.vertices == 0,
    {
        let handle_usize = d.vaos.len() + 1;
        let handle = handle_usize as u32;
        let mut attribs: Vec<Option<VertexAttrib>> = Vec::new();
        let mut i: usize = 0;
        while i < MAX_VERTEX_ATTRIBUTES
            invariant
                i <= MAX_VERTEX_ATTRIBUTES,
                attribs@ == empty_attribs().take(i as int),
            decreases MAX_VERTEX_ATTRIBUTES - i,
        {
            attribs.push(None);
            proof {
                assert(attribs@ =~= empty_attribs().take((i + 1) as int));
            }
            i = i + 1;
        }
        proof {
            assert(attribs@ =~= empty_attribs());
        }
        d.vaos.push(VaoSlot { ctx: ctx.id, state: SlotState::Live, attribs });
        proof {
            assert(d@ =~~= after_create_vao(old(d)@, ctx@));
        }
        VertexArrayObject { ctx: ctx.id, handle, vertices: 0 }
    }

    /// Gets the device-level handle.
    pub(crate) fn resource(&self) -> (r: u32)
        ensures
            r == self.handle,
    {
        self.handle
    }

    /// Makes this vertex array state current on its binding point.
    pub(crate) fn bind(&self, d: &mut Device)
        requires
            old(d).wf(),
            self.valid(old(d)@),
            is_current(old(d)@, self.ctx),
        ensures
            final(d).wf(),
            final(d)@ == bind_vao_view(old(d)@, self.ctx, self.handle),
            self.valid(final(d)@),
    {
        let mut meta = d.contexts[self.ctx];
        meta.vertex_array = self.handle;
        d.contexts.set(self.ctx, meta);
        proof {
            assert(d@ =~~= bind_vao_view(old(d)@, self.ctx, self.handle));
        }
    }

    /// Sets `buffer` as the vertex source of attribute `attribute_index`,
    /// with `n_elements` 32-bit float components per vertex. Attribute slots
    /// are independent: every other slot is left exactly as it is.
    pub fn set_vertex_buffer(
        &mut self,
        d: &mut Device,
        buffer: &Buffer,
        attribute_index: u32,
        n_elements: u32,
    )
        requires
            old(d).wf(),
            old(self).valid(old(d)@),
            buffer.valid(old(d)@),
            buffer.ctx == old(self).ctx,
            is_current(old(d)@, old(self).ctx),
            attribute_index < MAX_VERTEX_ATTRIBUTES,
        ensures
            final(d).wf(),
            final(d)@ == after_vao_set_attrib(
                old(d)@,
                old(self).ctx,
                old(self).handle,
                buffer.handle,
                attribute_index,
                n_elements,
            ),
            *final(self) == *old(self),
            final(self).valid(final(d)@),
            buffer.valid(final(d)@),
    {
        let mut meta = d.contexts[self.ctx];
        meta.vertex_array = self.handle;
        meta.array_buffer = buffer.resource();
        d.contexts.set(self.ctx, meta);
        let i = (self.handle - 1) as usize;
        let mut slot = d.vaos.remove(i);
        slot.attribs.set(
            attribute_index as usize,
            Some(VertexAttrib { buffer: buffer.resource(), components: n_elements }),
        );
        d.vaos.insert(i, slot);
        proof {
            assert(d@ =~~= after_vao_set_attrib(
                old(d)@,
                old(self).ctx,
                old(self).handle,
                buffer.handle,
                attribute_index,
                n_elements,
            ));
        }
    }

    /// Queries the device for the binding of attribute `attribute_index`:
    /// the handle of the source buffer and the components per vertex, if the
    /// slot has been set.
    pub fn get_vertex_buffer(&self, d: &Device, attribute_index: u32) -> (r: Option<(u32, u32)>)
        requires
            d.wf(),
            self.valid(d@),
            attribute_index < MAX_VERTEX_ATTRIBUTES,
        ensures
            r == match d@.vaos[self.index()].attribs[attribute_index as int] {
                Some(a) => Some((a.buffer, a.components)),
                None => None::<(u32, u32)>,
            },
    {
        let i = (self.handle - 1) as usize;
        let slot = &d.vaos[i];
        match slot.attribs[attribute_index as usize] {
            Some(a) => Some((a.buffer, a.components)),
            None => None,
        }
    }

    /// Sets the number of vertices a subsequent draw should consume.
    pub fn set_vertices(&mut self, vertices: u32)
        ensures
            *final(self) == (VertexArrayObject { vertices, ..*old(self) }),
    {
        self.vertices = vertices;
    }

    /// Gets the number of vertices a subsequent draw should consume.
    pub fn get_vertices(&self) -> (r: u32)
        ensures
            r == self.vertices,
    {
        self.vertices
    }

    /// Releases the vertex array state, as its destruction does: if the
    /// owning context is still alive, exactly one delete call is issued for
    /// it and the result is `true`; if the context is gone, no device call
    /// is made, the device is untouched, and the result is `false`.
    pub fn release(self, d: &mut Device) -> (deleted: bool)
        requires
            old(d).wf(),
            self.valid(old(d)@),
        ensures
            final(d).wf(),
            deleted == ctx_alive(old(d)@, self.ctx),
            final(d)@ == after_release_vao(old(d)@, self.index()),
    {
        if d.contexts[self.ctx].alive {
            let i = (self.handle - 1) as usize;
            let c = self.ctx;
            d.vaos.set(i, VaoSlot { ctx: c, state: SlotState::Deleted, attribs: Vec::new() });
            proof {
                assert(d@ =~~= after_release_vao(old(d)@, self.index()));
            }
            true
        } else {
            proof {
                assert(d@ =~~= after_release_vao(old(d)@, self.index()));
            }
            false
        }
    }
}

} // verus!
