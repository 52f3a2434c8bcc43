//! The device model: contexts with their liveness and global binding state,
//! and the tables of device-side objects (buffers, textures, renderbuffers,
//! vertex array state) that resources refer to by handle.
//!
//! A [`Device`] value stands for the connection to the device driver. Every
//! resource operation goes through it explicitly: creating a context,
//! activating it, creating an object, re-binding it, transferring data, and
//! issuing (or skipping) the delete call when a resource is released.

use vstd::prelude::*;
use crate::format::TextureFormat;

verus! {

/// Number of vertex attribute slots a vertex array state object carries.
pub const MAX_VERTEX_ATTRIBUTES: usize = 16;

/// Lifecycle state of one device-side object slot.
#[derive(Clone, Copy, PartialEq, Eq, Structural, Debug)]
pub enum SlotState {
    /// The object exists on the device.
    Live,
    /// A delete call was issued for the object; its handle may be reused by
    /// the driver, never by this model.
    Deleted,
}

/// Per-context state: liveness and the four binding points this layer uses.
/// A binding of `0` means "nothing bound".
#[derive(Clone, Copy, PartialEq, Eq, Structural, Debug)]
pub struct ContextState {
    /// Whether the context still exists.
    pub alive: bool,
    /// Handle bound to the linear-memory (array buffer) binding point.
    pub array_buffer: u32,
    /// Handle bound to the vertex array binding point.
    pub vertex_array: u32,
    /// Handle bound to the renderbuffer binding point.
    pub renderbuffer: u32,
    /// Handle bound to the three-dimensional texture binding point.
    pub texture_3d: u32,
}

/// A device-side buffer object: owning context and stored bytes.
pub struct BufferSlot {
    pub ctx: usize,
    pub state: SlotState,
    pub bytes: Vec<u8>,
}

/// Mathematical image of a [`BufferSlot`].
#[verifier::ext_equal]
pub struct BufferSlotView {
    /// Owning context.
    pub ctx: usize,
    /// Lifecycle state.
    pub state: SlotState,
    /// Stored bytes; the buffer's size is their count.
    pub bytes: Seq<u8>,
}

impl View for BufferSlot {
    type V = BufferSlotView;

    open spec fn view(&self) -> BufferSlotView {
        BufferSlotView { ctx: self.ctx, state: self.state, bytes: self.bytes@ }
    }
}

/// A device-side three-dimensional texture object: owning context, current
/// dimensions and format, and stored bytes.
pub struct TextureSlot {
    pub ctx: usize,
    pub state: SlotState,
    pub dims: (usize, usize, usize),
    pub format: TextureFormat,
    pub bytes: Vec<u8>,
}

/// Mathematical image of a [`TextureSlot`].
#[verifier::ext_equal]
pub struct TextureSlotView {
    /// Owning context.
    pub ctx: usize,
    /// Lifecycle state.
    pub state: SlotState,
    /// Width, height and depth of the stored image.
    pub dims: (usize, usize, usize),
    /// Storage format of the stored image.
    pub format: TextureFormat,
    /// Stored bytes; for a live slot, always `dims` volume times the
    /// format's element size.
    pub bytes: Seq<u8>,
}

impl View for TextureSlot {
    type V = TextureSlotView;

    open spec fn view(&self) -> TextureSlotView {
        TextureSlotView {
            ctx: self.ctx,
            state: self.state,
            dims: self.dims,
            format: self.format,
            bytes: self.bytes@,
        }
    }
}

/// A device-side renderbuffer object: owning context and its dimensions.
/// Renderbuffer contents are never read or written through this layer.
#[derive(Clone, Copy, PartialEq, Eq, Structural, Debug)]
pub struct RenderbufferSlot {
    /// Owning context.
    pub ctx: usize,
    /// Lifecycle state.
    pub state: SlotState,
    /// Width of the depth-capable storage.
    pub width: u32,
    /// Height of the depth-capable storage.
    pub height: u32,
}

/// One configured vertex attribute slot: the buffer handle serving as the
/// vertex source and how many 32-bit float components one vertex takes,
/// starting at byte offset zero with no stride customization.
#[derive(Clone, Copy, PartialEq, Eq, Structural, Debug)]
pub struct VertexAttrib {
    /// Handle of the buffer the attribute reads from.
    pub buffer: u32,
    /// Number of contiguous 32-bit float components per vertex.
    pub components: u32,
}

/// A device-side vertex array state object: owning context and its
/// independent attribute slots.
pub struct VaoSlot {
    pub ctx: usize,
    pub state: SlotState,
    pub attribs: Vec<Option<VertexAttrib>>,
}

/// Mathematical image of a [`VaoSlot`].
#[verifier::ext_equal]
pub struct VaoSlotView {
    /// Owning context.
    pub ctx: usize,
    /// Lifecycle state.
    pub state: SlotState,
    /// The attribute slots; for a live slot, always exactly
    /// [`MAX_VERTEX_ATTRIBUTES`] of them.
    pub attribs: Seq<Option<VertexAttrib>>,
}

impl View for VaoSlot {
    type V = VaoSlotView;

    open spec fn view(&self) -> VaoSlotView {
        VaoSlotView { ctx: self.ctx, state: self.state, attribs: self.attribs@ }
    }
}

/// The connection to the device driver: every context created through it,
/// the current context, and the object tables. Handles are table indexes
/// plus one, so `0` never names an object and handles are never reused.
pub struct Device {
    pub contexts: Vec<ContextState>,
    pub current: Option<usize>,
    pub buffers: Vec<BufferSlot>,
    pub textures: Vec<TextureSlot>,
    pub renderbuffers: Vec<RenderbufferSlot>,
    pub vaos: Vec<VaoSlot>,
}

/// Mathematical image of a [`Device`].
#[verifier::ext_equal]
pub struct DeviceView {
    /// Per-context state, indexed by context identifier.
    pub contexts: Seq<ContextState>,
    /// The context that is current for device calls, if any.
    pub current: Option<usize>,
    /// Buffer object table.
    pub buffers: Seq<BufferSlotView>,
    /// Texture object table.
    pub textures: Seq<TextureSlotView>,
    /// Renderbuffer object table.
    pub renderbuffers: Seq<RenderbufferSlot>,
    /// Vertex array state object table.
    pub vaos: Seq<VaoSlotView>,
}

impl View for Device {
    type V = DeviceView;

    open spec fn view(&self) -> DeviceView {
        DeviceView {
            contexts: self.contexts@,
            current: self.current,
            buffers: self.buffers@.map_values(|s: BufferSlot| s@),
            textures: self.textures@.map_values(|s: TextureSlot| s@),
            renderbuffers: self.renderbuffers@,
            vaos: self.vaos@.map_values(|s: VaoSlot| s@),
        }
    }
}

/// A sequence of `n` zero bytes: the contents of freshly reserved storage in
/// this model.
pub open spec fn zero_seq(n: nat) -> Seq<u8> {
    Seq::new(n, |i: int| 0u8)
}

/// Allocates `n` zero bytes.
#[verifier::loop_isolation(false)]
pub(crate) fn zero_bytes(n: usize) -> (v: Vec<u8>)
    ensures
        v@ == zero_seq(n as nat),
{
    let mut v: Vec<u8> = Vec::new();
    let mut i: usize = 0;
    while i < n
        invariant
            i <= n,
            v@ == zero_seq(i as nat),
        decreases n - i,
    {
        v.push(0u8);
        proof {
            assert(v@ =~= zero_seq((i + 1) as nat));
        }
        i = i + 1;
    }
    v
}

/// Copies a byte slice into an owned vector.
#[verifier::loop_isolation(false)]
pub(crate) fn copy_bytes(data: &[u8]) -> (v: Vec<u8>)
    ensures
        v@ == data@,
{
    let mut v: Vec<u8> = Vec::new();
    let mut i: usize = 0;
    while i < data.len()
        invariant
            i <= data.len(),
            v@ == data@.take(i as int),
        decreases data.len() - i,
    {
        v.push(data[i]);
        proof {
            assert(v@ =~= data@.take((i + 1) as int));
        }
        i = i + 1;
    }
    proof {
        assert(data@.take(data@.len() as int) =~= data@);
    }
    v
}

/// Whether context `c` exists and is alive on device `d`.
pub open spec fn ctx_alive(d: DeviceView, c: usize) -> bool {
    c < d.contexts.len() && d.contexts[c as int].alive
}

/// Whether context `c` is the one current for device calls on `d`.
pub open spec fn is_current(d: DeviceView, c: usize) -> bool {
    d.current == Some(c)
}

/// Well-formedness of a device: the current context (if any) is alive, every
/// slot's owning context exists, texture storage is exactly sized by its
/// dimensions and format, and vertex array state has its full complement of
/// attribute slots.
pub open spec fn wf_view(d: DeviceView) -> bool {
    &&& match d.current {
        Some(c) => ctx_alive(d, c),
        None => true,
    }
    &&& forall|i: int|
        0 <= i < d.buffers.len() ==> (#[trigger] d.buffers[i]).ctx < d.contexts.len()
    &&& forall|i: int|
        0 <= i < d.textures.len() ==> {
            let t = #[trigger] d.textures[i];
            t.ctx < d.contexts.len() && (t.state == SlotState::Live ==> t.bytes.len()
                == t.dims.0 * t.dims.1 * t.dims.2 * t.format.element_size_spec())
        }
    &&& forall|i: int|
        0 <= i < d.renderbuffers.len() ==> (#[trigger] d.renderbuffers[i]).ctx
            < d.contexts.len()
    &&& forall|i: int|
        0 <= i < d.vaos.len() ==> {
            let v = #[trigger] d.vaos[i];
            v.ctx < d.contexts.len() && (v.state == SlotState::Live ==> v.attribs.len()
                == MAX_VERTEX_ATTRIBUTES)
        }
}

/// The device before any context or object exists.
pub open spec fn empty_device() -> DeviceView {
    DeviceView {
        contexts: Seq::empty(),
        current: None,
        buffers: Seq::empty(),
        textures: Seq::empty(),
        renderbuffers: Seq::empty(),
        vaos: Seq::empty(),
    }
}

/// Effect of creating a context: a new alive context with nothing bound.
pub open spec fn after_create_context(d: DeviceView) -> DeviceView {
    DeviceView {
        contexts: d.contexts.push(
            ContextState {
                alive: true,
                array_buffer: 0,
                vertex_array: 0,
                renderbuffer: 0,
                texture_3d: 0,
            },
        ),
        ..d
    }
}

/// Effect of activating context `c`.
pub open spec fn after_make_current(d: DeviceView, c: usize) -> DeviceView {
    DeviceView { current: Some(c), ..d }
}

/// Effect of destroying context `c`: it is no longer alive (observable by
/// every outstanding weak reference), and no longer current. Objects it
/// owned are reclaimed by the driver; their slots are left as they are and
/// no delete call is issued for them.
pub open spec fn after_destroy_context(d: DeviceView, c: usize) -> DeviceView {
    DeviceView {
        contexts: d.contexts.update(
            c as int,
            ContextState { alive: false, ..d.contexts[c as int] },
        ),
        current: if d.current == Some(c) {
            None
        } else {
            d.current
        },
        ..d
    }
}

/// Recoverable errors of this layer.
#[derive(Clone, Copy, PartialEq, Eq, Structural, Debug)]
pub enum ContextError {
    /// The device connection or platform surface could not be activated.
    ContextUnavailable,
}

/// An owned handle to a live device context. It is the identity that
/// resources record; the context's mutable state lives in the [`Device`].
#[derive(Debug)]
pub struct Context {
    pub id: usize,
}

impl View for Context {
    type V = usize;

    open spec fn view(&self) -> usize {
        self.id
    }
}

/// A non-owning reference to a device context: it can be asked whether the
/// context still exists, and upgraded to an owned handle only while it does.
/// Context identifiers are never reused, so the answer stays `false` forever
/// once the context is destroyed.
#[derive(Clone, Copy, Debug)]
pub struct WeakContext {
    pub id: usize,
}

impl View for WeakContext {
    type V = usize;

    open spec fn view(&self) -> usize {
        self.id
    }
}

impl Device {
    /// Well-formedness of this device value.
    pub open spec fn wf(self) -> bool {
        wf_view(self@)
    }

    /// Opens the connection to the device driver, with no context yet.
    pub fn new() -> (d: Device)
        ensures
            d@ == empty_device(),
            d.wf(),
    {
        let d = Device {
            contexts: Vec::new(),
            current: None,
            buffers: Vec::new(),
            textures: Vec::new(),
            renderbuffers: Vec::new(),
            vaos: Vec::new(),
        };
        proof {
            assert(d@ =~= empty_device());
        }
        d
    }

    /// Establishes a new context on this device. The context starts alive,
    /// with nothing bound, and is not yet current.
    pub fn create_context(&mut self) -> (ctx: Context)
        requires
            old(self).wf(),
        ensures
            final(self).wf(),
            final(self)@ == after_create_context(old(self)@),
            ctx@ == old(self)@.contexts.len(),
            ctx_alive(final(self)@, ctx@),
    {
        let id = self.contexts.len();
        self.contexts.push(
            ContextState {
                alive: true,
                array_buffer: 0,
                vertex_array: 0,
                renderbuffer: 0,
                texture_3d: 0,
            },
        );
        proof {
            assert(self@ =~= after_create_context(old(self)@));
        }
        Context { id }
    }
}

impl Context {
    /// Activates this context for device calls. Fails with
    /// [`ContextError::ContextUnavailable`] exactly when the context no
    /// longer exists, in which case the device is unchanged.
    pub fn make_current(&self, d: &mut Device) -> (r: Result<(), ContextError>)
        requires
            old(d).wf(),
            self@ < old(d)@.contexts.len(),
        ensures
            final(d).wf(),
            r is Ok <==> ctx_alive(old(d)@, self@),
            final(d)@ == if ctx_alive(old(d)@, self@) {
                after_make_current(old(d)@, self@)
            } else {
                old(d)@
            },
            r is Err ==> r == Err::<(), ContextError>(ContextError::ContextUnavailable),
    {
        if d.contexts[self.id].alive {
            d.current = Some(self.id);
            proof {
                assert(d@ =~= after_make_current(old(d)@, self@));
            }
            Ok(())
        } else {
            proof {
                assert(d@ =~= old(d)@);
            }
            Err(ContextError::ContextUnavailable)
        }
    }

    /// Produces a non-owning reference to this context.
    pub fn weak_ref(&self) -> (r: WeakContext)
        ensures
            r@ == self@,
    {
        WeakContext { id: self.id }
    }

    /// Destroys this context. Every outstanding weak reference observes the
    /// death; resources of this context must skip their delete call from now
    /// on. If the context was current, none is afterwards.
    pub fn destroy(self, d: &mut Device)
        requires
            old(d).wf(),
            ctx_alive(old(d)@, self@),
        ensures
            final(d).wf(),
            final(d)@ == after_destroy_context(old(d)@, self@),
    {
        let mut meta = d.contexts[self.id];
        meta.alive = false;
        d.contexts.set(self.id, meta);
        let was_current = match d.current {
            Some(c) => c == self.id,
            None => false,
        };
        if was_current {
            d.current = None;
        }
        proof {
            assert(d@ =~= after_destroy_context(old(d)@, self@));
        }
    }
}

impl WeakContext {
    /// Whether the referenced context still exists.
    pub fn is_alive(&self, d: &Device) -> (r: bool)
        requires
            self@ < d@.contexts.len(),
        ensures
            r == ctx_alive(d@, self@),
    {
        d.contexts[self.id].alive
    }

    /// Upgrades to an owned context handle, exactly when the referenced
    /// context still exists.
    pub fn upgrade(&self, d: &Device) -> (r: Option<Context>)
        requires
            self@ < d@.contexts.len(),
        ensures
            r is Some <==> ctx_alive(d@, self@),
            match r {
                Some(ctx) => ctx@ == self@,
                None => !ctx_alive(d@, self@),
            },
    {
        if d.contexts[self.id].alive {
            Some(Context { id: self.id })
        } else {
            None
        }
    }
}

} // verus!
