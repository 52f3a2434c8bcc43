//! Three-dimensional typed image memory.
//!
//! A [`Texture3D`] wraps one device-level texture object. Its dimensions and
//! format are kept as a pair, updated together by every reallocation or
//! upload, and the bytes stored on the device are always sized exactly by
//! them. Every operation makes the texture current on its binding point
//! before touching the device.

use vstd::prelude::*;
use crate::device::{
    Context, ContextState, Device, DeviceView, SlotState, TextureSlot, TextureSlotView, copy_bytes,
    ctx_alive, is_current, wf_view, zero_bytes, zero_seq,
};
use crate::format::{ColorFormat, ComponentFormat, TextureFormat};

verus! {

/// Device code of the three-dimensional texture target.
pub const GL_TEXTURE_3D: u32 = 0x806F;

/// Number of stored elements of a texture sized `dims`: its volume.
pub open spec fn volume(dims: (usize, usize, usize)) -> int {
    dims.0 * dims.1 * dims.2
}

/// Number of stored bytes of a texture sized `dims` in format `format`.
pub open spec fn storage_size(dims: (usize, usize, usize), format: TextureFormat) -> int {
    volume(dims) * format.element_size_spec()
}

/// Effect of making texture `h` current on context `c`'s three-dimensional
/// texture binding point: only that binding point changes.
pub open spec fn bind_texture_view(d: DeviceView, c: usize, h: u32) -> DeviceView {
    DeviceView {
        contexts: d.contexts.update(
            c as int,
            ContextState { texture_3d: h, ..d.contexts[c as int] },
        ),
        ..d
    }
}

/// Effect of creating a texture object on context `c`: a new live slot with
/// no storage, in the default four-channel 32-bit float format; nothing is
/// bound by creation alone.
pub open spec fn after_create_texture(d: DeviceView, c: usize) -> DeviceView {
    DeviceView {
        textures: d.textures.push(
            TextureSlotView {
                ctx: c,
                state: SlotState::Live,
                dims: (0usize, 0usize, 0usize),
                format: TextureFormat(ColorFormat::RGBA, ComponentFormat::F32),
                bytes: Seq::empty(),
            },
        ),
        ..d
    }
}

/// Effect of reallocating texture `h` of context `c` to `dims` in `format`:
/// the texture is bound, prior contents are invalidated, and the fresh
/// storage reads as zero bytes in this model.
pub open spec fn after_texture_reallocate(
    d: DeviceView,
    c: usize,
    h: u32,
    dims: (usize, usize, usize),
    format: TextureFormat,
) -> DeviceView {
    let b = bind_texture_view(d, c, h);
    DeviceView {
        textures: b.textures.update(
            h - 1,
            TextureSlotView {
                dims,
                format,
                bytes: zero_seq(storage_size(dims, format) as nat),
                ..b.textures[h - 1]
            },
        ),
        ..b
    }
}

/// Effect of replacing texture `h`'s storage and contents in one call: the
/// texture is bound, its dimensions and storage format become `dims` and
/// `format`, and it stores exactly `data` when the transfer format equals
/// the storage format. A transfer in a different format is converted by the
/// device; this layer does not define the converted bytes and models them as
/// zero.
pub open spec fn after_texture_set_data(
    d: DeviceView,
    c: usize,
    h: u32,
    dims: (usize, usize, usize),
    format: TextureFormat,
    data: Seq<u8>,
    data_format: TextureFormat,
) -> DeviceView {
    let b = bind_texture_view(d, c, h);
    DeviceView {
        textures: b.textures.update(
            h - 1,
            TextureSlotView {
                dims,
                format,
                bytes: if data_format == format {
                    data
                } else {
                    zero_seq(storage_size(dims, format) as nat)
                },
                ..b.textures[h - 1]
            },
        ),
        ..b
    }
}

/// Effect of allocating a texture sized `dims` in `format` on context `c`.
pub open spec fn after_texture_allocate(
    d: DeviceView,
    c: usize,
    dims: (usize, usize, usize),
    format: TextureFormat,
) -> DeviceView {
    after_texture_reallocate(
        after_create_texture(d, c),
        c,
        (d.textures.len() + 1) as u32,
        dims,
        format,
    )
}

/// Effect of creating a texture on context `c` and immediately uploading
/// `data` to it.
pub open spec fn after_texture_from_data(
    d: DeviceView,
    c: usize,
    dims: (usize, usize, usize),
    format: TextureFormat,
    data: Seq<u8>,
    data_format: TextureFormat,
) -> DeviceView {
    after_texture_set_data(
        after_create_texture(d, c),
        c,
        (d.textures.len() + 1) as u32,
        dims,
        format,
        data,
        data_format,
    )
}

/// Effect of releasing the texture at slot `i`: while the owning context is
/// alive, exactly one delete call is issued and the slot goes to `Deleted`;
/// once the context is gone, no device call is made and the device is left
/// exactly as it is.
pub open spec fn after_release_texture(d: DeviceView, i: int) -> DeviceView {
    if ctx_alive(d, d.textures[i].ctx) {
        DeviceView {
            textures: d.textures.update(
                i,
                TextureSlotView {
                    state: SlotState::Deleted,
                    bytes: Seq::empty(),
                    ..d.textures[i]
                },
            ),
            ..d
        }
    } else {
        d
    }
}

/// A three-dimensional texture, owned by application code and tied to the
/// context that created it. The dimensions and format it reports are those
/// of the last successful allocation or upload, kept in lock step with the
/// device-side storage.
pub struct Texture3D {
    /// Identifier of the owning context.
    pub ctx: usize,
    /// Device-level handle of the texture object; never zero.
    pub handle: u32,
    /// Width, height and depth set by the last allocation or upload.
    pub dimensions: (usize, usize, usize),
    /// Storage format set by the last allocation or upload.
    pub format: TextureFormat,
}

impl Texture3D {
    /// Index of this texture's slot in the device's texture table.
    pub open spec fn index(self) -> int {
        self.handle - 1
    }

    /// The texture's slot exists, is live, belongs to the context the
    /// texture records, and the device-side dimensions and format agree with
    /// the ones the texture reports.
    pub open spec fn valid(self, d: DeviceView) -> bool {
        &&& 1 <= self.handle
        &&& self.index() < d.textures.len()
        &&& d.textures[self.index()].ctx == self.ctx
        &&& d.textures[self.index()].state == SlotState::Live
        &&& d.textures[self.index()].dims == self.dimensions
        &&& d.textures[self.index()].format == self.format
        &&& self.ctx < d.contexts.len()
    }

    /// Creates a fresh texture object with no storage.
    fn new(d: &mut Device, ctx: &Context) -> (t: Texture3D)
        requires
            old(d).wf(),
            is_current(old(d)@, ctx@),
            old(d)@.textures.len() < 0xFFFF_FFFFusize,
        ensures
            final(d).wf(),
            final(d)@ == after_create_texture(old(d)@, ctx@),
            t.valid(final(d)@),
            t.ctx == ctx@,
            t.index() == old(d)@.textures.len(),
            t.dimensions == (0usize, 0usize, 0usize),
            t.format == (TextureFormat(ColorFormat::RGBA, ComponentFormat::F32)),
    {
        let handle_usize = d.textures.len() + 1;
        let handle = handle_usize as u32;
        let format = TextureFormat::new(ColorFormat::RGBA, ComponentFormat::F32);
        d.textures.push(
            TextureSlot {
                ctx: ctx.id,
                state: SlotState::Live,
                dims: (0, 0, 0),
                format,
                bytes: Vec::new(),
            },
        );
        proof {
            assert(d@ =~~= after_create_texture(old(d)@, ctx@));
            let k = old(d)@.textures.len() as int;
            let t = d@.textures[k];
            assert(t.bytes.len() == t.dims.0 * t.dims.1 * t.dims.2
                * t.format.element_size_spec()) by (nonlinear_arith)
                requires
                    t.dims.0 == 0,
                    t.bytes.len() == 0,
            ;
            assert(wf_view(d@));
        }
        Texture3D { ctx: ctx.id, handle, dimensions: (0, 0, 0), format }
    }

    /// Gets the device-level handle.
    pub fn get_id(&self) -> (r: u32)
        ensures
            r == self.handle,
    {
        self.handle
    }

    /// Gets the device-level code of the texture target.
    pub fn get_type(&self) -> (r: u32)
        ensures
            r == GL_TEXTURE_3D,
    {
        GL_TEXTURE_3D
    }

    /// Gets the format of the stored image, as set by the last successful
    /// allocation or upload.
    pub fn get_format(&self) -> (r: TextureFormat)
        ensures
            r == self.format,
    {
        self.format
    }

    /// Gets the dimensions recorded by the last successful allocation or
    /// upload, without touching the device.
    pub fn dimensions(&self) -> (r: (usize, usize, usize))
        ensures
            r == self.dimensions,
    {
        self.dimensions
    }

    /// Makes this texture current on its binding point.
    pub(crate) fn bind(&self, d: &mut Device)
        requires
            old(d).wf(),
            self.valid(old(d)@),
            is_current(old(d)@, self.ctx),
        ensures
            final(d).wf(),
            final(d)@ == bind_texture_view(old(d)@, self.ctx, self.handle),
            self.valid(final(d)@),
    {
        let mut meta = d.contexts[self.ctx];
        meta.texture_3d = self.handle;
        d.contexts.set(self.ctx, meta);
        proof {
            assert(d@ =~~= bind_texture_view(old(d)@, self.ctx, self.handle));
        }
    }

    /// Queries the device for the dimensions of this texture's storage.
    /// They always agree with [`Self::dimensions`].
    pub fn get_dimension(&self, d: &mut Device) -> (r: (usize, usize, usize))
        requires
            old(d).wf(),
            self.valid(old(d)@),
            is_current(old(d)@, self.ctx),
        ensures
            final(d).wf(),
            final(d)@ == bind_texture_view(old(d)@, self.ctx, self.handle),
            r == self.dimensions,
            self.valid(final(d)@),
    {
        self.bind(d);
        let i = (self.handle - 1) as usize;
        let slot = &d.textures[i];
        slot.dims
    }

    /// Queries the device for the width of this texture's storage.
    pub fn get_width(&self, d: &mut Device) -> (r: usize)
        requires
            old(d).wf(),
            self.valid(old(d)@),
            is_current(old(d)@, self.ctx),
        ensures
            final(d).wf(),
            final(d)@ == bind_texture_view(old(d)@, self.ctx, self.handle),
            r == self.dimensions.0,
            self.valid(final(d)@),
    {
        self.bind(d);
        let i = (self.handle - 1) as usize;
        let slot = &d.textures[i];
        slot.dims.0
    }

    /// Queries the device for the height of this texture's storage.
    pub fn get_height(&self, d: &mut Device) -> (r: usize)
        requires
            old(d).wf(),
            self.valid(old(d)@),
            is_current(old(d)@, self.ctx),
        ensures
            final(d).wf(),
            final(d)@ == bind_texture_view(old(d)@, self.ctx, self.handle),
            r == self.dimensions.1,
            self.valid(final(d)@),
    {
        self.bind(d);
        let i = (self.handle - 1) as usize;
        let slot = &d.textures[i];
        slot.dims.1
    }

    /// Queries the device for the depth of this texture's storage.
    pub fn get_depth(&self, d: &mut Device) -> (r: usize)
        requires
            old(d).wf(),
            self.valid(old(d)@),
            is_current(old(d)@, self.ctx),
        ensures
            final(d).wf(),
            final(d)@ == bind_texture_view(old(d)@, self.ctx, self.handle),
            r == self.dimensions.2,
            self.valid(final(d)@),
    {
        self.bind(d);
        let i = (self.handle - 1) as usize;
        let slot = &d.textures[i];
        slot.dims.2
    }

    /// Replaces the storage with `dims` in `format`, invalidating prior
    /// contents; dimensions and format are updated together.
    pub fn reallocate(
        &mut self,
        d: &mut Device,
        dimensions: (usize, usize, usize),
        format: &TextureFormat,
    )
        requires
            old(d).wf(),
            old(self).valid(old(d)@),
            is_current(old(d)@, old(self).ctx),
            storage_size(dimensions, *format) <= usize::MAX,
        ensures
            final(d).wf(),
            final(d)@ == after_texture_reallocate(
                old(d)@,
                old(self).ctx,
                old(self).handle,
                dimensions,
                *format,
            ),
            *final(self) == (Texture3D { dimensions, format: *format, ..*old(self) }),
            final(self).valid(final(d)@),
    {
        self.bind(d);
        let i = (self.handle - 1) as usize;
        let c = self.ctx;
        let n = Self::checked_storage(dimensions, format);
        let bytes = zero_bytes(n);
        d.textures.set(
            i,
            TextureSlot { ctx: c, state: SlotState::Live, dims: dimensions, format: *format, bytes },
        );
        self.dimensions = dimensions;
        self.format = *format;
        proof {
            assert(d@ =~~= after_texture_reallocate(
                old(d)@,
                old(self).ctx,
                old(self).handle,
                dimensions,
                *format,
            ));
        }
    }

    /// Byte count of storage sized `dimensions` in `format`, proved free of
    /// overflow.
    fn checked_storage(dimensions: (usize, usize, usize), format: &TextureFormat) -> (n: usize)
        requires
            storage_size(dimensions, *format) <= usize::MAX,
        ensures
            n == storage_size(dimensions, *format),
    {
        if dimensions.0 == 0 || dimensions.1 == 0 || dimensions.2 == 0 {
            proof {
                assert(storage_size(dimensions, *format) == 0) by (nonlinear_arith)
                    requires
                        storage_size(dimensions, *format) == dimensions.0 * dimensions.1
                            * dimensions.2 * format.element_size_spec(),
                        dimensions.0 == 0 || dimensions.1 == 0 || dimensions.2 == 0,
                ;
            }
            0
        } else {
            let es = format.element_size();
            proof {
                let a = dimensions.0 as int;
                let b = dimensions.1 as int;
                let c = dimensions.2 as int;
                let e = format.element_size_spec();
                assert(a * b <= a * b * c * e && a * b * c <= a * b * c * e) by (nonlinear_arith)
                    requires
                        1 <= a && 1 <= b && 1 <= c && 1 <= e,
                ;
            }
            dimensions.0 * dimensions.1 * dimensions.2 * es
        }
    }

    /// Replaces the storage and its contents in one call: the new storage is
    /// sized `dims` in `format`, and `data` is interpreted in `data_format`.
    /// The caller keeps `data` sized to the dimensions under `data_format`.
    pub fn set_data(
        &mut self,
        d: &mut Device,
        dimensions: (usize, usize, usize),
        format: &TextureFormat,
        data: &[u8],
        data_format: &TextureFormat,
    )
        requires
            old(d).wf(),
            old(self).valid(old(d)@),
            is_current(old(d)@, old(self).ctx),
            data@.len() == storage_size(dimensions, *data_format),
            storage_size(dimensions, *format) <= usize::MAX,
        ensures
            final(d).wf(),
            final(d)@ == after_texture_set_data(
                old(d)@,
                old(self).ctx,
                old(self).handle,
                dimensions,
                *format,
                data@,
                *data_format,
            ),
            *final(self) == (Texture3D { dimensions, format: *format, ..*old(self) }),
            final(self).valid(final(d)@),
    {
        self.bind(d);
        let i = (self.handle - 1) as usize;
        let c = self.ctx;
        let bytes = if format == data_format {
            copy_bytes(data)
        } else {
            let n = Self::checked_storage(dimensions, format);
            zero_bytes(n)
        };
        d.textures.set(
            i,
            TextureSlot { ctx: c, state: SlotState::Live, dims: dimensions, format: *format, bytes },
        );
        self.dimensions = dimensions;
        self.format = *format;
        proof {
            assert(d@ =~~= after_texture_set_data(
                old(d)@,
                old(self).ctx,
                old(self).handle,
                dimensions,
                *format,
                data@,
                *data_format,
            ));
        }
    }

    /// Allocates a new texture with the specified dimensions and format; no
    /// contents are defined yet.
    pub fn allocate(
        d: &mut Device,
        ctx: &Context,
        dimensions: (usize, usize, usize),
        format: &TextureFormat,
    ) -> (t: Texture3D)
        requires
            old(d).wf(),
            is_current(old(d)@, ctx@),
            old(d)@.textures.len() < 0xFFFF_FFFFusize,
            storage_size(dimensions, *format) <= usize::MAX,
        ensures
            final(d).wf(),
            final(d)@ == after_texture_allocate(old(d)@, ctx@, dimensions, *format),
            t.valid(final(d)@),
            t.ctx == ctx@,
            t.index() == old(d)@.textures.len(),
            t.dimensions == dimensions,
            t.format == *format,
    {
        let mut texture = Self::new(d, ctx);
        texture.reallocate(d, dimensions, format);
        texture
    }

    /// Creates a new texture sized `dimensions`, storing in `format`, from
    /// `data` interpreted in `data_format`.
    pub fn from_data(
        d: &mut Device,
        ctx: &Context,
        dimensions: (usize, usize, usize),
        format: &TextureFormat,
        data: &[u8],
        data_format: &TextureFormat,
    ) -> (t: Texture3D)
        requires
            old(d).wf(),
            is_current(old(d)@, ctx@),
            old(d)@.textures.len() < 0xFFFF_FFFFusize,
            data@.len() == storage_size(dimensions, *data_format),
            storage_size(dimensions, *format) <= usize::MAX,
        ensures
            final(d).wf(),
            final(d)@ == after_texture_from_data(
                old(d)@,
                ctx@,
                dimensions,
                *format,
                data@,
                *data_format,
            ),
            t.valid(final(d)@),
            t.ctx == ctx@,
            t.index() == old(d)@.textures.len(),
            t.dimensions == dimensions,
            t.format == *format,
    {
        let mut texture = Self::new(d, ctx);
        texture.set_data(d, dimensions, format, data, data_format);
        texture
    }

    /// Downloads the full image: exactly the stored bytes, whose count is
    /// the volume of the dimensions times the format's element size.
    #[verifier::loop_isolation(false)]
    pub fn data(&self, d: &mut Device) -> (r: Vec<u8>)
        requires
            old(d).wf(),
            self.valid(old(d)@),
            is_current(old(d)@, self.ctx),
        ensures
            final(d).wf(),
            final(d)@ == bind_texture_view(old(d)@, self.ctx, self.handle),
            r@ == old(d)@.textures[self.index()].bytes,
            r@.len() == storage_size(self.dimensions, self.format),
    {
        self.bind(d);
        let i = (self.handle - 1) as usize;
        let total = d.textures[i].bytes.len();
        let mut out: Vec<u8> = Vec::new();
        let mut j: usize = 0;
        while j < total
            invariant
                j <= total,
                out@ == d@.textures[self.index()].bytes.take(j as int),
            decreases total - j,
        {
            let slot = &d.textures[i];
            out.push(slot.bytes[j]);
            proof {
                assert(out@ =~= d@.textures[self.index()].bytes.take((j + 1) as int));
            }
            j = j + 1;
        }
        proof {
            assert(out@ =~= d@.textures[self.index()].bytes);
        }
        out
    }

    /// Releases the texture, as its destruction does: if the owning context
    /// is still alive, exactly one delete call is issued for it and the
    /// result is `true`; if the context is gone, no device call is made, the
    /// device is untouched, and the result is `false`.
    pub fn release(self, d: &mut Device) -> (deleted: bool)
        requires
            old(d).wf(),
            self.valid(old(d)@),
        ensures
            final(d).wf(),
            deleted == ctx_alive(old(d)@, self.ctx),
            final(d)@ == after_release_texture(old(d)@, self.index()),
    {
        if d.contexts[self.ctx].alive {
            let i = (self.handle - 1) as usize;
            let c = self.ctx;
            let dims = {
                let slot = &d.textures[i];
                slot.dims
            };
            let format = {
                let slot = &d.textures[i];
                slot.format
            };
            d.textures.set(
                i,
                TextureSlot { ctx: c, state: SlotState::Deleted, dims, format, bytes: Vec::new() },
            );
            proof {
                assert(d@ =~~= after_release_texture(old(d)@, self.index()));
            }
            true
        } else {
            proof {
                assert(d@ =~~= after_release_texture(old(d)@, self.index()));
            }
            false
        }
    }
}

} // verus!
